//! On-device preprocessing of receipt photographs: recompression and resizing,
//! a coarse receipt-boundary heuristic, and image-quality scoring.
//!
//! Each of the three operations takes an image file in the transport encoding
//! (standard base64), decodes it for itself and keeps nothing between calls.
//! Scores and ratios are reported as exact fractions.
//!
//! Beside them stand the rules that the client's other commands follow: which
//! requests the outbound relay forwards and which responses it accepts, where
//! the client keeps its data, and what its background commands report.

pub mod codec;
pub mod compress;
pub mod contour;
pub mod error;
pub mod format;
pub mod greeting;
pub mod notification;
pub mod quality;
pub mod ratio;
pub mod relay;
pub mod reports;
pub mod resize;
pub mod storage;

pub use compress::{compress_image, CompressedImageResult, ImageCompressionOptions};
pub use contour::{detect_receipt_contour, ReceiptContourResult};
pub use error::ProcessingError;
pub use greeting::greet;
pub use notification::NotificationData;
pub use quality::{analyze_image_quality, ImageQualityResult};
pub use ratio::Ratio;
