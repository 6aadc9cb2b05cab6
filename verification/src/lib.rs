//! Scoped, validated access to a native convolutional-network inference
//! engine.
//!
//! The engine itself (convolution, image decoding, non-max suppression) is an
//! external collaborator behind a fixed C interface; nothing here reimplements
//! it.  What this crate owns is the layer in front of that interface:
//!
//! * marshaling host text into nul-terminated byte strings, rejecting text
//!   that a C string cannot carry;
//! * validating arguments before they cross the boundary, failing fast with a
//!   typed error instead of forwarding bad values;
//! * wrapping each opaque engine handle in a single-owner type whose release
//!   consumes the owner, so a handle can be freed at most once;
//! * keeping the detection count paired with its detection handle, so a stale
//!   count can never reach the engine.
//!
//! Every operation is split in two verified halves.  A *planner* checks and
//! marshals the caller's arguments and returns a plain-data call descriptor
//! naming the native function's exact arguments.  An *interpreter* takes the
//! raw values the engine handed back and either builds the owning wrapper or
//! rejects the result.  An unverified driver sits between the halves: it
//! performs each described call and returns the raw outcome.

pub mod detect;
pub mod errors;
pub mod image;
pub mod marshal;
pub mod meta;
pub mod network;

pub use detect::{
    apply_nms_count, detections_from_raw, do_nms_obj, draw_detections, free_detections,
    get_network_boxes, Detection,
};
pub use errors::Error;
pub use image::{
    free_image, image_from_raw, load_image_color, resize_image, resized_from_raw, save_image,
    Image,
};
pub use marshal::marshal;
pub use meta::{
    load_alphabet, load_metadata, load_names, metadata_from_raw, Alphabet, Metadata, Names,
};
pub use network::{
    backward_network, forward_network, free_network, load_network, network_from_raw, predict_image,
    set_batch_network, update_network, Network,
};
