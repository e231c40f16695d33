//! Service configuration and the location of uploaded files.
use vstd::prelude::*;

use crate::paths::{directory_under, join_segments, normal_segments, upload_location};

verus! {

/// Where the service keeps its web assets and uploads.
pub struct Folio {
    pub web_path: String,
    pub uploads_path: String,
    pub garbage_collection_pattern: Vec<String>,
}

impl Folio {
    /// The full path of `relative_path` inside the uploads directory, taken below
    /// `root` unless it is absolute. Only the named components of `relative_path`
    /// are kept, so the result never leaves the uploads directory.
    pub fn build_full_upload_path(&self, root: &str, relative_path: &str) -> (r: String)
        ensures
            r@ == upload_location(root@, self.uploads_path@, relative_path@),
    {
        let base = directory_under(root, self.uploads_path.as_str());
        let segments = normal_segments(relative_path);
        join_segments(base.as_str(), &segments)
    }
}

impl Default for Folio {
    fn default() -> (r: Folio)
        ensures
            r.web_path@ == "./web/dist"@,
            r.uploads_path@ == "./uploads"@,
            r.garbage_collection_pattern@.len() == 2,
            r.garbage_collection_pattern@[0]@ == "^\\._.+"@,
            r.garbage_collection_pattern@[1]@ == "^\\.DS_Store$"@,
    {
        Folio {
            web_path: String::from_str("./web/dist"),
            uploads_path: String::from_str("./uploads"),
            garbage_collection_pattern: vec![
                String::from_str("^\\._.+"),
                String::from_str("^\\.DS_Store$"),
            ],
        }
    }
}

} // verus!
