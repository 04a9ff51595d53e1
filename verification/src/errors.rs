use vstd::prelude::*;

verus! {

use vstd::string::StringExecFns;

/// The failure taxonomy of the service. Every kind is terminal for the
/// request that raised it: there is no retry and no local recovery anywhere
/// in the pipeline.
pub enum BlogError {
    /// The database rejected or failed the operation.
    Database(String),
    /// Local storage failed while writing an asset.
    FileOperation(String),
    /// The outbound avatar fetch failed at the transport layer.
    Network(String),
    /// A required field was missing from the submission.
    Validation(String),
    /// The page template failed to render.
    Template(String),
    /// The multipart stream or one of its parts could not be decoded.
    Form(String),
}

impl BlogError {
    /// The human-readable description: a fixed prefix naming the kind,
    /// then the detail carried by the variant.
    pub open spec fn spec_message(&self) -> Seq<char> {
        match self {
            BlogError::Database(d) => "Database error: "@ + d@,
            BlogError::FileOperation(d) => "File operation error: "@ + d@,
            BlogError::Network(d) => "Network error: "@ + d@,
            BlogError::Validation(d) => "Validation error: "@ + d@,
            BlogError::Template(d) => "Template error: "@ + d@,
            BlogError::Form(d) => "Failed to parse form: "@ + d@,
        }
    }

    pub fn message(&self) -> (r: String)
        ensures
            r@ == self.spec_message(),
    {
        match self {
            BlogError::Database(d) => {
                let mut r = "Database error: ".to_owned();
                r.append(d.as_str());
                r
            },
            BlogError::FileOperation(d) => {
                let mut r = "File operation error: ".to_owned();
                r.append(d.as_str());
                r
            },
            BlogError::Network(d) => {
                let mut r = "Network error: ".to_owned();
                r.append(d.as_str());
                r
            },
            BlogError::Validation(d) => {
                let mut r = "Validation error: ".to_owned();
                r.append(d.as_str());
                r
            },
            BlogError::Template(d) => {
                let mut r = "Template error: ".to_owned();
                r.append(d.as_str());
                r
            },
            BlogError::Form(d) => {
                let mut r = "Failed to parse form: ".to_owned();
                r.append(d.as_str());
                r
            },
        }
    }

    /// The transport status every kind collapses to: an opaque server
    /// failure, with no distinction between invalid input and server fault.
    pub fn http_status(&self) -> (r: u16)
        ensures
            r == 500,
    {
        500
    }
}

} // verus!
