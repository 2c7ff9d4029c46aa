// Catalog enumeration, lazy handles, and the independence of instances
// opened from the same handle.

use remote_seek::catalog::{CatalogBuilder, ListingEvent, ObjectDescriptor};
use remote_seek::error::StoreError;
use remote_seek::file::{FetchOutcome, ReadPlan, RemoteSeekableFile, SeekTarget};
use remote_seek::handle::RemoteFileHandle;
use remote_seek::plugin::{Results, YaraPlugin};

fn read(file: &mut RemoteSeekableFile, content: &[u8], n: usize) -> Result<Vec<u8>, StoreError> {
    match file.plan_read(n) {
        ReadPlan::Empty => Ok(Vec::new()),
        ReadPlan::Fetch { start, end } => {
            let body = content[start as usize..end as usize].to_vec();
            file.commit_read(n, FetchOutcome::Delivered(body))
        }
    }
}

#[test]
fn enumeration_preserves_containers_and_order() {
    let mut builder = CatalogBuilder::new();

    builder.begin_container(String::from("empty"));
    builder
        .accept(ListingEvent::Page { entries: Vec::new(), more: false })
        .unwrap();
    builder.finish_container();

    builder.begin_container(String::from("full"));
    let first_page = vec![
        ObjectDescriptor::new(String::from("a"), 10),
        ObjectDescriptor::new(String::from("b"), 20),
    ];
    builder
        .accept(ListingEvent::Page { entries: first_page, more: true })
        .unwrap();
    let second_page = vec![ObjectDescriptor::new(String::from("c"), 30)];
    builder
        .accept(ListingEvent::Page { entries: second_page, more: false })
        .unwrap();
    builder.finish_container();

    let catalog = builder.into_catalog();
    assert_eq!(catalog.len(), 2);
    assert_eq!(catalog[0].name, "empty");
    assert_eq!(catalog[0].objects.len(), 0);
    assert_eq!(catalog[1].name, "full");
    assert_eq!(catalog[1].objects.len(), 3);
    assert_eq!(catalog[1].objects[0].key, "a");
    assert_eq!(catalog[1].objects[0].size, 10);
    assert_eq!(catalog[1].objects[1].key, "b");
    assert_eq!(catalog[1].objects[1].size, 20);
    assert_eq!(catalog[1].objects[2].key, "c");
    assert_eq!(catalog[1].objects[2].size, 30);
}

#[test]
fn unreachable_store_discards_everything() {
    let mut builder = CatalogBuilder::new();
    builder.begin_container(String::from("one"));
    builder
        .accept(ListingEvent::Page { entries: vec![ObjectDescriptor::new(String::from("a"), 1)], more: false })
        .unwrap();
    builder.finish_container();

    builder.begin_container(String::from("two"));
    let r = builder.accept(ListingEvent::Unreachable);
    assert_eq!(r, Err(StoreError::ConnectionError));
    // All-or-nothing: the finished container is gone too.
    let catalog = builder.into_catalog();
    assert_eq!(catalog.len(), 0);
}

#[test]
fn failed_listing_discards_everything() {
    let mut builder = CatalogBuilder::new();
    builder.begin_container(String::from("one"));
    builder
        .accept(ListingEvent::Page { entries: vec![ObjectDescriptor::new(String::from("a"), 1)], more: true })
        .unwrap();
    let r = builder.accept(ListingEvent::Failed);
    assert_eq!(r, Err(StoreError::EnumerationError));
    let catalog = builder.into_catalog();
    assert_eq!(catalog.len(), 0);
}

#[test]
fn descriptor_yields_handle_with_captured_triple() {
    let descriptor = ObjectDescriptor::new(String::from("path/to/blob"), 4096);
    let handle = descriptor.to_handle(&String::from("bucket"));
    assert_eq!(handle.container, "bucket");
    assert_eq!(handle.key, "path/to/blob");
    assert_eq!(handle.size(), 4096);
}

#[test]
fn open_fails_when_object_is_not_addressable() {
    let handle = RemoteFileHandle::new(String::from("bucket"), String::from("gone"), 128);
    match handle.open(false) {
        Err(e) => assert_eq!(e, StoreError::OpenError),
        Ok(_) => panic!("an unaddressable object must not open"),
    }
}

#[test]
fn instances_from_one_handle_are_independent() {
    let content: Vec<u8> = (0u8..10u8).collect();
    let handle = RemoteFileHandle::new(
        String::from("bucket"),
        String::from("object"),
        content.len() as u64,
    );
    let mut first = handle.open(true).unwrap();
    let mut second = handle.open(true).unwrap();
    assert_eq!(first.position, 0);
    assert_eq!(second.position, 0);

    let data = read(&mut first, &content, 6).unwrap();
    assert_eq!(data.len(), 6);
    assert_eq!(first.position, 6);
    // The sibling instance is untouched and still reads from the start.
    assert_eq!(second.position, 0);
    let data = read(&mut second, &content, 10).unwrap();
    assert_eq!(data, content);
    assert_eq!(second.position, 10);
    assert_eq!(first.position, 6);
}

#[test]
fn plugin_registers_under_its_name() {
    let plugin = YaraPlugin::default();
    assert_eq!(plugin.name(), "yara");
    let _results = Results::default();
}
