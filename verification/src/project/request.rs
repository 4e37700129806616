//! Project request bodies.

use vstd::prelude::*;

verus! {

#[derive(Clone, Debug, PartialEq, Eq)]
pub struct CreateProjectRequest {
    pub name: String,
    pub description: Option<String>,
}

/// Operating system of a binary target. Serializes to match the server's
/// `OperatingSystem` enum (lowercase: `windows`, `linux`, `macos`).
#[derive(Clone, Copy, Debug, PartialEq, Eq)]
pub enum Os {
    Windows,
    Linux,
    Macos,
}

/// CPU architecture of a binary target. Serializes to match the server's
/// `Architecture` enum (lowercase: `x86_64`, `arm64`).
#[derive(Clone, Copy, Debug, PartialEq, Eq)]
pub enum Arch {
    X86_64,
    Arm64,
}

/// A single compiled binary in a `binaries` code version.
#[derive(Clone, Debug, PartialEq, Eq)]
pub struct PublishBinaryRequest {
    pub os: Os,
    pub architecture: Arch,
    pub checksum: String,
    pub size: u64,
}

/// The single source archive in a `source` code version.
#[derive(Clone, Debug, PartialEq, Eq)]
pub struct PublishSourceRequest {
    pub checksum: String,
    pub size: u64,
}

/// The artifact a code version describes: either a set of compiled binaries
/// (each tagged with its OS/arch) or a single source archive. Serialized with an
/// internal `type` tag to match the server's `PublishArtifactRequest`.
#[derive(Clone, Debug, PartialEq, Eq)]
pub enum PublishArtifactRequest {
    Binaries { binaries: Vec<PublishBinaryRequest> },
    Source { source: PublishSourceRequest },
}

/// Body of `POST /projects/{owner}/{project}/code/upload`.
#[derive(Clone, Debug, PartialEq, Eq)]
pub struct PublishProjectVersionRequest {
    pub digest: String,
    pub artifact: PublishArtifactRequest,
}

/// Optional body of `POST .../code/{id}/complete`: the multipart uploads the
/// client finished, so the server can finalize the exact uploads it wrote to.
#[derive(Clone, Debug, PartialEq, Eq)]
pub struct CompleteCodeUploadRequest {
    pub artifacts: Vec<CompletedCodeArtifact>,
}

#[derive(Clone, Debug, PartialEq, Eq)]
pub struct CompletedCodeArtifact {
    pub key: String,
    pub upload_id: String,
    pub parts: Vec<CompletedCodePart>,
}

#[derive(Clone, Debug, PartialEq, Eq)]
pub struct CompletedCodePart {
    pub part_number: i32,
    pub etag: String,
}

} // verus!
