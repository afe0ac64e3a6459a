//! Album art messages and the validation of downloaded artwork.
use vstd::prelude::*;

use std::sync::mpsc::{Receiver, Sender};

verus! {

/// Album art update message from the enrichment thread.
#[derive(Debug, Clone)]
pub struct AlbumArtUpdate {
    pub url: String,
}

/// Declares `std::sync::mpsc::Sender`, the sending half of a channel, as an
/// opaque type.
#[verifier::external_type_specification]
#[verifier::external_body]
#[verifier::reject_recursive_types(T)]
pub struct ExSender<T>(Sender<T>);

/// Declares `std::sync::mpsc::Receiver`, the receiving half of a channel, as
/// an opaque type.
#[verifier::external_type_specification]
#[verifier::external_body]
#[verifier::reject_recursive_types(T)]
pub struct ExReceiver<T>(Receiver<T>);

/// Name for how an album art channel came into being: `tx` and `rx` are the
/// two halves of one channel, made together and holding no update when it
/// was made. It is a fact fixed at creation, not the channel's current
/// content: what is sent later is not described here.
pub uninterp spec fn fresh_album_art_channel(
    tx: Sender<AlbumArtUpdate>,
    rx: Receiver<AlbumArtUpdate>,
) -> bool;

/// Calls `std::sync::mpsc::channel`. The contract claims what its
/// documentation says of the pair it returns: the sender and the receiver
/// are the two halves of one new, empty channel.
#[verifier::external_body]
fn mpsc_channel() -> (r: (Sender<AlbumArtUpdate>, Receiver<AlbumArtUpdate>))
    ensures
        fresh_album_art_channel(r.0, r.1),
{
    std::sync::mpsc::channel()
}

/// Create a channel for album art updates: the two halves of one new,
/// empty channel.
pub fn create_album_art_channel() -> (r: (Sender<AlbumArtUpdate>, Receiver<AlbumArtUpdate>))
    ensures
        fresh_album_art_channel(r.0, r.1),
{
    mpsc_channel()
}

/// Declares `image::ImageError`, an image decoding failure, as an opaque type.
#[verifier::external_type_specification]
#[verifier::external_body]
pub struct ExImageError(image::ImageError);

/// Guesses the format with `image::ImageReader::with_guessed_format` and
/// decodes with `ImageReader::decode`, giving the image's `(width, height)`.
/// Nothing is stated of the result: the reader consults the crate's
/// process-wide registry of decoding hooks, so the outcome is not a function
/// of the bytes alone. The reader panics only if that registry's lock was
/// poisoned by a panicking hook registration; this crate registers none.
#[verifier::external_body]
fn decode_image_size(data: &[u8]) -> (r: Result<(u32, u32), image::ImageError>) {
    let reader = match image::ImageReader::new(std::io::Cursor::new(data)).with_guessed_format() {
        Ok(reader) => reader,
        Err(e) => return Err(image::ImageError::IoError(e)),
    };
    match reader.decode() {
        Ok(img) => Ok((img.width(), img.height())),
        Err(e) => Err(e),
    }
}

/// Why downloaded album art was rejected.
#[derive(Debug)]
pub enum AlbumArtError {
    /// The bytes are not an image the decoder understands.
    Decode(image::ImageError),
}

/// The verdict on album art from the decoder's answer: its `(width,
/// height)` when it decoded, the decoding error otherwise.
pub fn album_art_outcome(decoded: Result<(u32, u32), image::ImageError>) -> (r: Result<(u32, u32), AlbumArtError>)
    ensures
        match decoded {
            Ok(d) => r == Ok::<(u32, u32), AlbumArtError>(d),
            Err(e) => r == Err::<(u32, u32), AlbumArtError>(AlbumArtError::Decode(e)),
        },
{
    match decoded {
        Ok(d) => Ok(d),
        Err(e) => Err(AlbumArtError::Decode(e)),
    }
}

/// Validates album art by decoding it; returns its `(width, height)`.
/// Whether the bytes decode is the decoder's answer (see
/// [`album_art_outcome`]).
pub fn validate_album_art_image(image_data: &[u8]) -> Result<(u32, u32), AlbumArtError> {
    album_art_outcome(decode_image_size(image_data))
}

/// Prepares the native album art window for validated image data. The
/// window itself is not implemented yet, so this always succeeds.
pub fn create_album_art_window(image_data: &[u8]) -> (r: Result<(), AlbumArtError>)
    ensures
        r is Ok,
{
    Ok(())
}

} // verus!
