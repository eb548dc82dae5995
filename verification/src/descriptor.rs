//! The descriptor that reports one attempt to find or check an executable.

use vstd::prelude::*;
use vstd::string::*;

verus! {

/// The mathematical value of an [`ExecutableDescriptor`].
pub struct DescriptorView {
    pub found: bool,
    pub path: Option<Seq<char>>,
    pub version: Option<Seq<char>>,
    pub error: Option<Seq<char>>,
}

/// The error text for a path that is not on the file system.
pub open spec fn missing_message() -> Seq<char> {
    "File does not exist"@
}

/// The error text for a file that did not answer the version probe, and so
/// does not show itself to be `product`.
pub open spec fn unverified_message(product: Seq<char>) -> Seq<char> {
    "File exists but does not appear to be "@ + product + " (could not get version)"@
}

/// The error text for a search that came back without a candidate.
pub open spec fn not_found_message(product: Seq<char>) -> Seq<char> {
    product + " not found in system PATH"@
}

/// The error text for a search that could not be run, with its reason.
pub open spec fn search_failed_message(product: Seq<char>, reason: Seq<char>) -> Seq<char> {
    "Failed to search for "@ + product + ": "@ + reason
}

impl DescriptorView {
    /// A descriptor either reports a verified executable, with its path and
    /// version and no error, or reports a failure, with an error and no
    /// version.
    pub open spec fn well_formed(self) -> bool {
        if self.found {
            self.path is Some && self.version is Some && self.error is None
        } else {
            self.version is None && self.error is Some
        }
    }

    /// A verified executable at `path` that reported `version`.
    pub open spec fn verified(path: Seq<char>, version: Seq<char>) -> DescriptorView {
        DescriptorView { found: true, path: Some(path), version: Some(version), error: None }
    }

    /// A failure with the text `error`, at `path` where one is known.
    pub open spec fn failure(path: Option<Seq<char>>, error: Seq<char>) -> DescriptorView {
        DescriptorView { found: false, path, version: None, error: Some(error) }
    }
}

/// The outcome of one discovery or verification attempt. Failure is data
/// here, not an error of the call.
#[derive(Debug)]
pub struct ExecutableDescriptor {
    found: bool,
    path: Option<String>,
    version: Option<String>,
    error: Option<String>,
}

impl View for ExecutableDescriptor {
    type V = DescriptorView;

    closed spec fn view(&self) -> DescriptorView {
        DescriptorView {
            found: self.found,
            path: self.path.deep_view(),
            version: self.version.deep_view(),
            error: self.error.deep_view(),
        }
    }
}

impl ExecutableDescriptor {
    #[verifier::type_invariant]
    spec fn consistent(self) -> bool {
        self@.well_formed()
    }

    /// Reports the executable at `path`, which answered the probe with `version`.
    pub fn verified(path: String, version: String) -> (d: ExecutableDescriptor)
        ensures
            d@ == DescriptorView::verified(path@, version@),
    {
        ExecutableDescriptor { found: true, path: Some(path), version: Some(version), error: None }
    }

    /// Reports that the file at `path` exists but did not answer the probe,
    /// and so does not show itself to be `product`.
    pub fn unverified(path: String, product: &str) -> (d: ExecutableDescriptor)
        ensures
            d@ == DescriptorView::failure(Some(path@), unverified_message(product@)),
    {
        let error = String::from_str("File exists but does not appear to be ").concat(
            product,
        ).concat(" (could not get version)");
        ExecutableDescriptor { found: false, path: Some(path), version: None, error: Some(error) }
    }

    /// Reports that nothing exists at `path`.
    pub fn missing(path: String) -> (d: ExecutableDescriptor)
        ensures
            d@ == DescriptorView::failure(Some(path@), missing_message()),
    {
        let error = String::from_str("File does not exist");
        ExecutableDescriptor { found: false, path: Some(path), version: None, error: Some(error) }
    }

    /// Reports that the search path holds no candidate for `product`.
    pub fn not_found(product: &str) -> (d: ExecutableDescriptor)
        ensures
            d@ == DescriptorView::failure(None, not_found_message(product@)),
    {
        let error = String::from_str(product).concat(" not found in system PATH");
        ExecutableDescriptor { found: false, path: None, version: None, error: Some(error) }
    }

    /// Reports that the search for `product` could not be run, for `reason`.
    pub fn search_failed(product: &str, reason: &str) -> (d: ExecutableDescriptor)
        ensures
            d@ == DescriptorView::failure(None, search_failed_message(product@, reason@)),
    {
        let error = String::from_str("Failed to search for ").concat(product).concat(
            ": ",
        ).concat(reason);
        ExecutableDescriptor { found: false, path: None, version: None, error: Some(error) }
    }

    /// Whether a verified executable was found.
    pub fn found(&self) -> (found: bool)
        ensures
            found == self@.found,
            self@.well_formed(),
    {
        proof {
            use_type_invariant(self);
        }
        self.found
    }

    /// The path that was examined, where there is one.
    pub fn path(&self) -> (path: &Option<String>)
        ensures
            path.deep_view() == self@.path,
            self@.well_formed(),
    {
        proof {
            use_type_invariant(self);
        }
        &self.path
    }

    /// The version that the executable reported; present exactly when found.
    pub fn version(&self) -> (version: &Option<String>)
        ensures
            version.deep_view() == self@.version,
            self@.well_formed(),
    {
        proof {
            use_type_invariant(self);
        }
        &self.version
    }

    /// Why nothing was found; present exactly when not found.
    pub fn error(&self) -> (error: &Option<String>)
        ensures
            error.deep_view() == self@.error,
            self@.well_formed(),
    {
        proof {
            use_type_invariant(self);
        }
        &self.error
    }
}

} // verus!
