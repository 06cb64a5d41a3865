//! The local cache of marketplace resources.

use vstd::prelude::*;
use vstd::string::StringExecFns;
use crate::error::{AppError, ErrorKind};

verus! {

/// One resource of the cached catalogue.
#[derive(Debug, PartialEq, Eq)]
pub struct CacheResource {
    pub unique_name: String,
    pub name: String,
}

impl Clone for CacheResource {
    fn clone(&self) -> (r: Self)
        ensures
            r == *self,
    {
        CacheResource { unique_name: self.unique_name.clone(), name: self.name.clone() }
    }
}

/// The cache as a whole: where it lives and what its modules published.
#[derive(Clone, Debug, PartialEq, Eq)]
pub struct CacheClient {
    /// Directory the cache files are kept in.
    pub base_path: String,
    /// Resources last published by the resource module.
    pub resources: Vec<CacheResource>,
}

/// The part of the cache that holds the resources.
#[derive(Clone, Debug)]
pub struct ResourceModule {
    pub client: CacheClient,
    /// Name under which the module reports failures.
    pub component: String,
    /// Location of the module's file inside the cache directory.
    pub path: String,
    pub items: Vec<CacheResource>,
}

impl ResourceModule {
    /// An empty resource module of the given cache.
    pub fn new(client: CacheClient) -> (r: Self)
        ensures
            r.client == client,
            r.component@ == "Resource"@,
            r.path@ == "item/Resources.json"@,
            r.items@ == Seq::<CacheResource>::empty(),
    {
        ResourceModule {
            client,
            component: String::from_str("Resource"),
            path: String::from_str("item/Resources.json"),
            items: Vec::new(),
        }
    }

    /// The name a part of the module reports under: the module's name, a
    /// colon, and the part's name.
    pub fn get_component(&self, component: &str) -> (r: String)
        ensures
            r@ == self.component@ + ":"@ + component@,
    {
        let mut name = self.component.clone();
        name.append(":");
        name.append(component);
        name
    }

    /// Publishes the module's resources to the cache it belongs to.
    pub fn update_state(&mut self)
        ensures
            final(self).client.resources@ == old(self).items@,
            final(self).client.base_path == old(self).client.base_path,
            final(self).items == old(self).items,
            final(self).component == old(self).component,
            final(self).path == old(self).path,
    {
        let published = self.items.clone();
        self.client.resources = published;
    }

    /// Takes over the resources parsed from the module's file and publishes
    /// them. When the file could not be parsed, the module stays as it is
    /// and the failure names the module's loading part and the parser's
    /// complaint.
    pub fn load(&mut self, parsed: Result<Vec<CacheResource>, String>) -> (r: Result<(), AppError>)
        ensures
            match parsed {
                Ok(items) => {
                    &&& r is Ok
                    &&& final(self).items == items
                    &&& final(self).client.resources@ == items@
                    &&& final(self).client.base_path == old(self).client.base_path
                    &&& final(self).component == old(self).component
                    &&& final(self).path == old(self).path
                },
                Err(complaint) => {
                    &&& r matches Err(failure)
                    &&& failure.component@ == old(self).component@ + ":"@ + "Load"@
                    &&& failure.cause@ == "Failed to parse ResourceModule from file: "@
                        + complaint@
                    &&& failure.kind == ErrorKind::Malformed
                    &&& failure.extra is None
                    &&& *final(self) == *old(self)
                },
            },
    {
        match parsed {
            Ok(items) => {
                self.items = items;
                self.update_state();
                Ok(())
            },
            Err(complaint) => {
                let component = self.get_component("Load");
                let mut cause = String::from_str("Failed to parse ResourceModule from file: ");
                cause.append(complaint.as_str());
                Err(AppError::new(component.as_str(), cause.as_str(), ErrorKind::Malformed))
            },
        }
    }
}

} // verus!
