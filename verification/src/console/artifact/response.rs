//! Multipart upload answers shared by artifacts and models.

pub use crate::station::experiment::response::{MultipartUploadResponse, PresignedUploadUrlResponse};
