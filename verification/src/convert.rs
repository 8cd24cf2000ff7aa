//! The entry points.
//!
//! Each conversion is decided in two steps around the engine's run. The first
//! step checks the arguments in a fixed order and either refuses with a
//! failure or yields the job the engine is to do. The second step takes what
//! the engine made of the job and settles the result code and, for a buffer
//! conversion, the text handed to the caller.

use vstd::prelude::*;
use vstd::utf8::{decode_utf8, valid_utf8};
use crate::config::{EngineConfig, VtracerConfig};
use crate::image::{byte_count, RasterImage};
use crate::status::{BufferError, FileError, SUCCESS};
use crate::text::{decode_path, zero_free, OwnedText};

verus! {

/// A file conversion that passed every check: where to read, where to write,
/// and how to convert.
#[derive(Debug)]
pub struct FileJob {
    pub input_path: String,
    pub output_path: String,
    pub config: EngineConfig,
}

/// A buffer conversion that passed every check: the image, copied, and how to
/// convert it.
#[derive(Debug)]
pub struct BufferJob {
    pub image: RasterImage,
    pub config: EngineConfig,
}

/// The first check that a file conversion fails, in the order in which the
/// checks are made: presence of all three references, then the input path,
/// then the output path.
pub open spec fn file_refusal(
    input_path: Option<Seq<u8>>,
    output_path: Option<Seq<u8>>,
    config: Option<VtracerConfig>,
) -> Option<FileError> {
    if input_path is None || output_path is None || config is None {
        Some(FileError::InvalidParameter)
    } else if !valid_utf8(input_path->0) {
        Some(FileError::InvalidInputPath)
    } else if !valid_utf8(output_path->0) {
        Some(FileError::InvalidOutputPath)
    } else {
        None
    }
}

/// The first check that a buffer conversion fails, in the order in which the
/// checks are made: presence of the pixel data, the configuration and the
/// output slot, then the length of the pixel data.
pub open spec fn buffer_refusal(
    image_data: Option<Seq<u8>>,
    width: usize,
    height: usize,
    config: Option<VtracerConfig>,
    output_present: bool,
) -> Option<BufferError> {
    if image_data is None || config is None || !output_present {
        Some(BufferError::InvalidParameter)
    } else if image_data->0.len() != byte_count(width as int, height as int) {
        Some(BufferError::SizeMismatch)
    } else {
        None
    }
}

/// The bytes behind an optional slice.
pub open spec fn bytes_of(data: Option<&[u8]>) -> Option<Seq<u8>> {
    match data {
        Some(bytes) => Some(bytes@),
        None => None,
    }
}

/// The record behind an optional reference.
pub open spec fn record_of(config: Option<&VtracerConfig>) -> Option<VtracerConfig> {
    match config {
        Some(c) => Some(*c),
        None => None,
    }
}

/// Checks the arguments of a file conversion and prepares the engine's job.
///
/// The paths are the bytes before the terminator; an absent reference is
/// `None`. Nothing is read or written here, so a refusal leaves the file
/// system as it was.
pub fn vtracer_convert_file(
    input_path: Option<&[u8]>,
    output_path: Option<&[u8]>,
    config: Option<&VtracerConfig>,
) -> (r: Result<FileJob, FileError>)
    ensures
        match r {
            Ok(job) => {
                &&& file_refusal(bytes_of(input_path), bytes_of(output_path), record_of(config))
                    is None
                &&& job.input_path@ == decode_utf8(input_path->0@)
                &&& job.output_path@ == decode_utf8(output_path->0@)
                &&& job.config == config->0.decode()
            },
            Err(e) => file_refusal(bytes_of(input_path), bytes_of(output_path), record_of(config))
                == Some(e),
        },
{
    let (input_bytes, output_bytes, record) = match (input_path, output_path, config) {
        (Some(i), Some(o), Some(c)) => (i, o, c),
        _ => return Err(FileError::InvalidParameter),
    };
    let input_path = match decode_path(input_bytes) {
        Some(path) => path,
        None => return Err(FileError::InvalidInputPath),
    };
    let output_path = match decode_path(output_bytes) {
        Some(path) => path,
        None => return Err(FileError::InvalidOutputPath),
    };
    Ok(FileJob { input_path, output_path, config: EngineConfig::from(*record) })
}

/// The result code of a file conversion whose job the engine has run: success
/// if the engine succeeded, the one conversion failure otherwise, whatever
/// the engine's own message says.
pub fn finish_convert_file(outcome: Result<(), String>) -> (r: i32)
    ensures
        outcome is Ok ==> r == SUCCESS,
        outcome is Err ==> r == FileError::ConversionFailed.code_spec(),
{
    match outcome {
        Ok(_) => SUCCESS,
        Err(_) => FileError::ConversionFailed.code(),
    }
}

/// Checks the arguments of a buffer conversion and prepares the engine's job.
///
/// `image_data` is the caller's pixel buffer with its declared length;
/// `output_present` says whether the caller named a slot for the result. The
/// length is checked before anything is copied, and the job owns its copy of
/// the pixels.
pub fn vtracer_convert_bytes(
    image_data: Option<&[u8]>,
    width: usize,
    height: usize,
    config: Option<&VtracerConfig>,
    output_present: bool,
) -> (r: Result<BufferJob, BufferError>)
    ensures
        match r {
            Ok(job) => {
                &&& buffer_refusal(
                    bytes_of(image_data),
                    width,
                    height,
                    record_of(config),
                    output_present,
                ) is None
                &&& job.image@ == image_data->0@
                &&& job.image.width() == width
                &&& job.image.height() == height
                &&& job.config == config->0.decode()
            },
            Err(e) => buffer_refusal(
                bytes_of(image_data),
                width,
                height,
                record_of(config),
                output_present,
            ) == Some(e),
        },
{
    let (data, record) = match (image_data, config, output_present) {
        (Some(d), Some(c), true) => (d, c),
        _ => return Err(BufferError::InvalidParameter),
    };
    match RasterImage::copy_from(data, width, height) {
        Some(image) => Ok(BufferJob { image, config: EngineConfig::from(*record) }),
        None => Err(BufferError::SizeMismatch),
    }
}

/// Settles a buffer conversion whose job the engine has run.
///
/// `rendered` is the engine's document rendered to bytes, or the engine's
/// failure. On success the text is put into `output` and belongs to the
/// caller from then on; on any failure `output` keeps what it held.
pub fn finish_convert_bytes(
    rendered: Result<Vec<u8>, String>,
    output: &mut Option<OwnedText>,
) -> (r: i32)
    ensures
        match rendered {
            Err(_) => {
                &&& r == BufferError::ConversionFailed.code_spec()
                &&& *final(output) == *old(output)
            },
            Ok(bytes) => if zero_free(bytes@) {
                &&& r == SUCCESS
                &&& *final(output) matches Some(text)
                &&& text@ == bytes@
            } else {
                &&& r == BufferError::EncodingFailed.code_spec()
                &&& *final(output) == *old(output)
            },
        },
{
    match rendered {
        Err(_) => BufferError::ConversionFailed.code(),
        Ok(bytes) => match OwnedText::new(bytes) {
            Ok(text) => {
                *output = Some(text);
                SUCCESS
            },
            Err(_) => BufferError::EncodingFailed.code(),
        },
    }
}

/// Releases a text that a conversion handed out. Releasing nothing is
/// allowed and does nothing.
pub fn vtracer_free_string(text: Option<OwnedText>) {
    let _ = text;
}

} // verus!
