//! Uploaded files as the store records them.

use vstd::prelude::*;

use mongodb::bson::document::ValueAccessError;
use mongodb::bson::Document;

use crate::encoding::bson::{
    failure_of, get_object_id, get_stamp, object_id_field, optional, read_text, stamp_field,
    text_field, AccessFailure, Timestamp,
};

verus! {

/// An uploaded file.
#[derive(Debug, Clone, PartialEq, Eq)]
pub struct File {
    pub id: String,
    pub file_name: String,
    pub slug: String,
    pub uploaded_file_path: String,
    pub mime_type: String,
    pub provider: String,
    pub region: String,
    pub bucket: String,
    pub uploaded_at: Option<Timestamp>,
    pub modified_at: Option<Timestamp>,
}

/// What a file holds.
pub ghost struct FileView {
    pub id: Seq<char>,
    pub file_name: Seq<char>,
    pub slug: Seq<char>,
    pub uploaded_file_path: Seq<char>,
    pub mime_type: Seq<char>,
    pub provider: Seq<char>,
    pub region: Seq<char>,
    pub bucket: Seq<char>,
    pub uploaded_at: Option<Timestamp>,
    pub modified_at: Option<Timestamp>,
}

impl View for File {
    type V = FileView;

    open spec fn view(&self) -> FileView {
        FileView {
            id: self.id@,
            file_name: self.file_name@,
            slug: self.slug@,
            uploaded_file_path: self.uploaded_file_path@,
            mime_type: self.mime_type@,
            provider: self.provider@,
            region: self.region@,
            bucket: self.bucket@,
            uploaded_at: self.uploaded_at,
            modified_at: self.modified_at,
        }
    }
}

/// The file that a document records, or why it records none: the first of
/// `_id`, `fileName`, `slug`, `uploadedFilePath`, `mimeType`, `provider`,
/// `region`, `bucket` and `uploadedAt` that cannot be read. The time of the
/// last change is taken where it can be read.
pub open spec fn file_of(document: Document) -> Result<FileView, AccessFailure> {
    match object_id_field(document, "_id"@) {
        Err(e) => Err(e),
        Ok(id) => match text_field(document, "fileName"@) {
            Err(e) => Err(e),
            Ok(file_name) => match text_field(document, "slug"@) {
                Err(e) => Err(e),
                Ok(slug) => match text_field(document, "uploadedFilePath"@) {
                    Err(e) => Err(e),
                    Ok(uploaded_file_path) => match text_field(document, "mimeType"@) {
                        Err(e) => Err(e),
                        Ok(mime_type) => match text_field(document, "provider"@) {
                            Err(e) => Err(e),
                            Ok(provider) => match text_field(document, "region"@) {
                                Err(e) => Err(e),
                                Ok(region) => match text_field(document, "bucket"@) {
                                    Err(e) => Err(e),
                                    Ok(bucket) => match stamp_field(document, "uploadedAt"@) {
                                        Err(e) => Err(e),
                                        Ok(uploaded_at) => Ok(
                                            FileView {
                                                id,
                                                file_name,
                                                slug,
                                                uploaded_file_path,
                                                mime_type,
                                                provider,
                                                region,
                                                bucket,
                                                uploaded_at: Some(uploaded_at),
                                                modified_at: optional(
                                                    stamp_field(document, "modifiedAt"@),
                                                ),
                                            },
                                        ),
                                    },
                                },
                            },
                        },
                    },
                },
            },
        },
    }
}

impl File {
    /// Reads a file out of its document.
    pub fn unmarshal_bson(document: &Document) -> (file: Result<File, ValueAccessError>)
        ensures
            match file {
                Ok(f) => file_of(*document) == Ok::<FileView, AccessFailure>(f@),
                Err(e) => file_of(*document) == Err::<FileView, AccessFailure>(failure_of(e)),
            },
    {
        let id = get_object_id(document, "_id")?;
        let file_name = read_text(document, "fileName")?;
        let slug = read_text(document, "slug")?;
        let uploaded_file_path = read_text(document, "uploadedFilePath")?;
        let mime_type = read_text(document, "mimeType")?;
        let provider = read_text(document, "provider")?;
        let region = read_text(document, "region")?;
        let bucket = read_text(document, "bucket")?;
        let uploaded_at = get_stamp(document, "uploadedAt")?;
        let modified_at = match get_stamp(document, "modifiedAt") {
            Ok(at) => Some(at),
            Err(_) => None,
        };
        Ok(
            File {
                id,
                file_name,
                slug,
                uploaded_file_path,
                mime_type,
                provider,
                region,
                bucket,
                uploaded_at: Some(uploaded_at),
                modified_at,
            },
        )
    }
}

} // verus!
