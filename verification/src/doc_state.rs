use vstd::prelude::*;
use crate::errors::HostError;

verus! {

#[verifier::external_type_specification]
#[verifier::external_body]
#[verifier::reject_recursive_types(T)]
pub struct ExRwLock<T: ?Sized>(std::sync::RwLock<T>);

#[verifier::external_type_specification]
#[verifier::external_body]
#[verifier::reject_recursive_types(T)]
pub struct ExRwLockReadGuard<'a, T: ?Sized>(std::sync::RwLockReadGuard<'a, T>);

#[verifier::external_type_specification]
#[verifier::external_body]
#[verifier::reject_recursive_types(T)]
pub struct ExRwLockWriteGuard<'a, T: ?Sized + 'a>(std::sync::RwLockWriteGuard<'a, T>);

/// Owns the parsed document behind a reference-counted reader-writer guard.
/// At most one writer, or any number of readers, hold access at a time; every
/// handle cloned from this one shares the same document.
pub struct DocState {
    data: std::sync::Arc<std::sync::RwLock<scraper::Html>>,
}

impl DocState {
    /// Relies on Arc::new and RwLock::new: takes ownership of the parsed
    /// document and places it behind a fresh guard.
    #[verifier::external_body]
    pub fn new(doc: scraper::Html) -> DocState {
        DocState { data: std::sync::Arc::new(std::sync::RwLock::new(doc)) }
    }

    /// Relies on Arc::clone: a handle to the same guarded document whose
    /// lifetime is not bound to the call site, fit for capture inside a
    /// registered native callback.
    #[verifier::external_body]
    pub fn clone_reference(&self) -> DocState {
        DocState { data: std::sync::Arc::clone(&self.data) }
    }

    /// Relies on std::sync::RwLock::read: shared access to the document;
    /// blocks while a writer holds access; multiple readers may hold access
    /// simultaneously. A poisoned guard is reported as fatal, never retried.
    #[verifier::external_body]
    pub fn read_value<'a>(&'a self) -> (r: Result<
        std::sync::RwLockReadGuard<'a, scraper::Html>,
        HostError,
    >)
        ensures
            r matches Err(e) ==> e == HostError::Poisoned,
    {
        match self.data.read() {
            Ok(g) => Ok(g),
            Err(_) => Err(HostError::Poisoned),
        }
    }

    /// Relies on std::sync::RwLock::write: exclusive access to the document;
    /// blocks out every other reader and writer until released. A poisoned
    /// guard is reported as fatal, never retried.
    #[verifier::external_body]
    pub fn write_value<'a>(&'a self) -> (r: Result<
        std::sync::RwLockWriteGuard<'a, scraper::Html>,
        HostError,
    >)
        ensures
            r matches Err(e) ==> e == HostError::Poisoned,
    {
        match self.data.write() {
            Ok(g) => Ok(g),
            Err(_) => Err(HostError::Poisoned),
        }
    }

    /// Relies on std::sync::RwLock::write: applies the closure to the
    /// document under exclusive access and returns its result; readers that
    /// arrive meanwhile complete only after the writer releases access.
    /// The closure is applied as given: no contract of it is checked here,
    /// so a caller must hand one whose own obligations already hold.
    #[verifier::external_body]
    pub fn manipulate<T, F: Fn(&mut scraper::Html) -> T>(&self, f: F) -> (r: Result<T, HostError>)
        ensures
            r matches Err(e) ==> e == HostError::Poisoned,
    {
        match self.data.write() {
            Ok(mut g) => Ok(f(&mut g)),
            Err(_) => Err(HostError::Poisoned),
        }
    }
}

/// Relies on RwLockReadGuard's Deref: the document the guard protects.
#[verifier::external_body]
pub(crate) fn guard_document<'a, 'b>(
    g: &'b std::sync::RwLockReadGuard<'a, scraper::Html>,
) -> &'b scraper::Html {
    g
}

} // verus!
