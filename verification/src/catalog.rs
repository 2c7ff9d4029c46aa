use vstd::prelude::*;

use crate::error::StoreError;
use crate::handle::RemoteFileHandle;

verus! {

/// One object discovered during enumeration: its key within the
/// container and its total size in bytes. Immutable once enumerated.
pub struct ObjectDescriptor {
    /// The object's key within its container.
    pub key: String,
    /// The object's total size in bytes, as the listing reported it.
    pub size: u64,
}

impl ObjectDescriptor {
    /// Record one listed object.
    pub fn new(key: String, size: u64) -> (d: ObjectDescriptor)
        ensures
            d.key@ == key@,
            d.size == size,
    {
        ObjectDescriptor { key, size }
    }

    /// Capture the lazy open capability for this object: the handle
    /// copies the container name, the key and the size, and performs no
    /// I/O.
    pub fn to_handle(&self, container: &String) -> (h: RemoteFileHandle)
        ensures
            h.container@ == container@,
            h.key@ == self.key@,
            h.size == self.size,
    {
        RemoteFileHandle::new(container.clone(), self.key.clone(), self.size)
    }
}

/// One container and the objects found in it, in discovery order. The
/// order only records how the store listed them; nothing downstream
/// depends on it semantically.
pub struct ContainerDescriptor {
    /// The container's name.
    pub name: String,
    /// The objects listed in it, in the order the store returned them.
    pub objects: Vec<ObjectDescriptor>,
}

/// The store's answer to one listing request for the container currently
/// being enumerated. The transport performs the request and reports one
/// of these.
pub enum ListingEvent {
    /// One page of results; `more` says whether a continuation token came
    /// with it, in which case another page must be requested before the
    /// container is complete.
    Page { entries: Vec<ObjectDescriptor>, more: bool },
    /// The store could not be reached at all.
    Unreachable,
    /// The store failed the listing request.
    Failed,
}

/// Builds the catalog one container and one listing page at a time.
///
/// The protocol is enforced by the contracts: a container is begun, fed
/// pages until one arrives without a continuation token (`more == false`),
/// and only then finished — a listing can never be cut short at a page
/// boundary and passed off as complete. Enumeration is all-or-nothing:
/// the first failed or unreachable listing discards everything gathered
/// so far, so no partial catalog ever escapes.
pub struct CatalogBuilder {
    /// The containers enumerated so far, complete.
    pub finished: Vec<ContainerDescriptor>,
    /// The container currently being listed, if any.
    pub current_name: Option<String>,
    /// The objects gathered so far for the current container.
    pub current_objects: Vec<ObjectDescriptor>,
    /// Whether the store still holds more pages for the current
    /// container, meaningful only while one is in progress.
    pub more_pages: bool,
}

impl CatalogBuilder {
    /// Whether a container is currently being listed.
    pub open spec fn in_progress(self) -> bool {
        self.current_name is Some
    }

    /// Start with no containers and nothing in progress.
    pub fn new() -> (b: CatalogBuilder)
        ensures
            b.finished@.len() == 0,
            !b.in_progress(),
    {
        CatalogBuilder {
            finished: Vec::new(),
            current_name: None,
            current_objects: Vec::new(),
            more_pages: false,
        }
    }

    /// Begin listing one container. More pages are owed until a page
    /// arrives without a continuation token.
    pub fn begin_container(&mut self, name: String)
        requires
            !old(self).in_progress(),
        ensures
            final(self).finished == old(self).finished,
            final(self).current_name matches Some(m) && m@ == name@,
            final(self).current_objects@.len() == 0,
            final(self).more_pages,
    {
        self.current_name = Some(name);
        self.current_objects = Vec::new();
        self.more_pages = true;
    }

    /// Feed the store's answer to the pending listing request. A page
    /// appends its entries behind what was already gathered, keeping the
    /// store's order, and records whether more pages are owed. An
    /// unreachable store fails with `ConnectionError` and a failed
    /// listing with `EnumerationError`; either failure discards the whole
    /// pass — the finished containers too — so nothing partial survives.
    pub fn accept(&mut self, event: ListingEvent) -> (r: Result<(), StoreError>)
        requires
            old(self).in_progress(),
            old(self).more_pages,
        ensures
            event matches ListingEvent::Page { entries, more } ==> {
                &&& r is Ok
                &&& final(self).finished == old(self).finished
                &&& final(self).current_name == old(self).current_name
                &&& final(self).current_objects@ == old(self).current_objects@ + entries@
                &&& final(self).more_pages == more
            },
            event is Unreachable ==> (r matches Err(e) && e == StoreError::ConnectionError),
            event is Failed ==> (r matches Err(e) && e == StoreError::EnumerationError),
            r is Err ==> final(self).finished@.len() == 0 && !final(self).in_progress(),
    {
        match event {
            ListingEvent::Page { entries, more } => {
                let mut entries = entries;
                self.current_objects.append(&mut entries);
                self.more_pages = more;
                Ok(())
            },
            ListingEvent::Unreachable => {
                self.discard();
                Err(StoreError::ConnectionError)
            },
            ListingEvent::Failed => {
                self.discard();
                Err(StoreError::EnumerationError)
            },
        }
    }

    /// Drop everything gathered in this pass.
    fn discard(&mut self)
        ensures
            final(self).finished@.len() == 0,
            !final(self).in_progress(),
    {
        self.finished = Vec::new();
        self.current_name = None;
        self.current_objects = Vec::new();
        self.more_pages = false;
    }

    /// Close the container in progress, appending it to the finished
    /// catalog with its objects exactly as the pages delivered them. Only
    /// a container whose last page carried no continuation token can be
    /// finished.
    pub fn finish_container(&mut self)
        requires
            old(self).in_progress(),
            !old(self).more_pages,
        ensures
            !final(self).in_progress(),
            final(self).finished@.len() == old(self).finished@.len() + 1,
            final(self).finished@.last().name == old(self).current_name->0,
            final(self).finished@.last().objects@ == old(self).current_objects@,
            final(self).finished@.drop_last() == old(self).finished@,
    {
        let name_opt = self.current_name.take();
        let name = match name_opt {
            Some(n) => n,
            None => unreached(),
        };
        let mut objects: Vec<ObjectDescriptor> = Vec::new();
        core::mem::swap(&mut self.current_objects, &mut objects);
        self.finished.push(ContainerDescriptor { name, objects });
        proof {
            assert(self.finished@.drop_last() =~= old(self).finished@);
        }
    }

    /// Hand over the finished catalog: the containers in the order they
    /// were enumerated. Only a pass with no container in progress — every
    /// begun container finished, no failure along the way — has a catalog
    /// to hand over.
    pub fn into_catalog(self) -> (catalog: Vec<ContainerDescriptor>)
        requires
            !self.in_progress(),
        ensures
            catalog == self.finished,
    {
        self.finished
    }
}

} // verus!
