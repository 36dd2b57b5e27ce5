//! Content-addressed file renaming: streaming digests, canonical names
//! derived from them, and the per-file decisions of a renaming run; and the
//! selection state of a tool that merges a video and an audio track.

pub mod collect;
pub mod digest;
pub mod hex;
pub mod media;
pub mod naming;
pub mod run;
pub mod task;

pub use collect::{collect_tasks, walk_depth_limit, EntryKind, Root, WalkEntry};
pub use digest::{digest_hex, Algo, DigestStream};
pub use hex::hex_upper;
pub use media::{classify_lowered, classify_media, FFmpegApp, MediaKind};
pub use naming::{canonical_name, extension, plan_rename, Plan};
pub use run::{count_renamed, settle, FailReason, Outcome, RunConfig};
pub use task::{Action, FileTask, Stage};
