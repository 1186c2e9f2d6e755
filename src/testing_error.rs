use vstd::prelude::*;

verus! {

/// Why a lookup of elements in a rendered view failed.
#[derive(Debug, Clone, PartialEq, Eq)]
pub enum TestingLibraryError {
    /// Nothing matched `ident` by `method`.
    NotFound { method: &'static str, ident: String },
    /// More than one element matched `ident` by `method` where one was expected.
    MoreThanOne { method: &'static str, ident: String },
}

impl TestingLibraryError {
    pub fn more_than_one(method: &'static str, ident: String) -> (r: Self)
        ensures
            r == (TestingLibraryError::MoreThanOne { method, ident }),
    {
        TestingLibraryError::MoreThanOne { method, ident }
    }

    pub fn not_found(method: &'static str, ident: String) -> (r: Self)
        ensures
            r == (TestingLibraryError::NotFound { method, ident }),
    {
        TestingLibraryError::NotFound { method, ident }
    }
}

/// Asks which kind of lookup failure a value is, or holds.
pub trait TestingLibraryErrorTrait {
    spec fn spec_is_not_found(&self) -> bool;

    spec fn spec_is_more_than_one(&self) -> bool;

    fn is_not_found(&self) -> (r: bool)
        ensures
            r == self.spec_is_not_found(),
    ;

    fn is_more_than_one(&self) -> (r: bool)
        ensures
            r == self.spec_is_more_than_one(),
    ;
}

impl TestingLibraryErrorTrait for TestingLibraryError {
    open spec fn spec_is_not_found(&self) -> bool {
        *self is NotFound
    }

    open spec fn spec_is_more_than_one(&self) -> bool {
        *self is MoreThanOne
    }

    fn is_not_found(&self) -> (r: bool) {
        match self {
            TestingLibraryError::NotFound { .. } => true,
            TestingLibraryError::MoreThanOne { .. } => false,
        }
    }

    fn is_more_than_one(&self) -> (r: bool) {
        match self {
            TestingLibraryError::NotFound { .. } => false,
            TestingLibraryError::MoreThanOne { .. } => true,
        }
    }
}

impl<T> TestingLibraryErrorTrait for Result<T, TestingLibraryError> {
    open spec fn spec_is_not_found(&self) -> bool {
        match self {
            Ok(_) => false,
            Err(e) => e is NotFound,
        }
    }

    open spec fn spec_is_more_than_one(&self) -> bool {
        match self {
            Ok(_) => false,
            Err(e) => e is MoreThanOne,
        }
    }

    fn is_not_found(&self) -> (r: bool) {
        match self {
            Ok(_) => false,
            Err(e) => e.is_not_found(),
        }
    }

    fn is_more_than_one(&self) -> (r: bool) {
        match self {
            Ok(_) => false,
            Err(e) => e.is_more_than_one(),
        }
    }
}

} // verus!
