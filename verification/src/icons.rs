//! Decoding an ICO buffer into the preview entries the application shows:
//! one entry per image in the icon directory, pairing the stored image bytes
//! with a pixel-dimension label.
//!
//! The ICO format itself is decoded by the `ico` crate behind a trusted
//! wrapper; everything that follows the decode is verified.

use vstd::prelude::*;
use crate::label::size_label;
use crate::label::size_label_spec;

verus! {

/// One image of an icon directory, as the library models it: the stored
/// image bytes (PNG or BMP) and the pixel dimensions of the image.
pub struct IconEntry {
    pub data: Vec<u8>,
    pub width: u32,
    pub height: u32,
}

impl View for IconEntry {
    type V = (Seq<u8>, u32, u32);

    open spec fn view(&self) -> (Seq<u8>, u32, u32) {
        (self.data@, self.width, self.height)
    }
}

/// One preview entry: displayable image bytes and the dimension label shown
/// beside them.
pub struct Preview {
    pub image_data: Vec<u8>,
    pub label: String,
}

impl View for Preview {
    type V = (Seq<u8>, Seq<char>);

    open spec fn view(&self) -> (Seq<u8>, Seq<char>) {
        (self.image_data@, self.label@)
    }
}

/// What decoding an ICO buffer yields: `None` when the buffer is not a valid
/// icon directory, otherwise the sequence of entries, each with its image
/// bytes and its width and height in pixels. The outcome depends on the
/// bytes alone.
pub uninterp spec fn icon_dir_of(bytes: Seq<u8>) -> Option<Seq<(Seq<u8>, u32, u32)>>;

/// The error the library reports when an ICO buffer cannot be decoded.
#[derive(Clone, Copy, Debug, PartialEq, Eq, Structural)]
pub struct IcoDecodeError;

/// Declares `std::io::Error`, the error `ico::IconDir::read` reports, so
/// that the trusted wrapper below can return it; the library maps it to
/// [`IcoDecodeError`] and never reads it.
#[verifier::external_type_specification]
#[verifier::external_body]
pub struct ExIoError(std::io::Error);

/// Relies on `ico::IconDir::read` over an in-memory cursor, and on
/// `ico::IconDirEntry`'s accessors `data`, `width` and `height`: decodes an
/// ICO buffer into its entries, a function of the buffer alone.
#[verifier::external_body]
fn read_icon_dir(data: &Vec<u8>) -> (r: Result<Vec<IconEntry>, std::io::Error>)
    ensures
        match r {
            Ok(entries) => icon_dir_of(data@) == Some(entries@.map_values(|e: IconEntry| e@)),
            Err(_) => icon_dir_of(data@) is None,
        },
{
    let dir = ico::IconDir::read(std::io::Cursor::new(data))?;
    Ok(dir
        .entries()
        .iter()
        .map(|e| IconEntry { data: e.data().to_vec(), width: e.width(), height: e.height() })
        .collect())
}

/// Decodes an ICO buffer into its entries, reporting the library's own
/// error when the buffer is not a valid icon directory.
pub fn decode_icon_dir(data: &Vec<u8>) -> (r: Result<Vec<IconEntry>, IcoDecodeError>)
    ensures
        match r {
            Ok(entries) => icon_dir_of(data@) == Some(entries@.map_values(|e: IconEntry| e@)),
            Err(_) => icon_dir_of(data@) is None,
        },
{
    match read_icon_dir(data) {
        Ok(entries) => Ok(entries),
        Err(_) => Err(IcoDecodeError),
    }
}

/// The preview derived from one icon entry: the image bytes unchanged, and
/// the dimension label rendered from the entry's width and height.
pub open spec fn preview_of(entry: (Seq<u8>, u32, u32)) -> (Seq<u8>, Seq<char>) {
    (entry.0, size_label_spec(entry.1 as nat, entry.2 as nat))
}

/// Holds when `previews` is exactly the preview list derived from `entries`.
pub open spec fn previews_match(previews: Seq<Preview>, entries: Seq<(Seq<u8>, u32, u32)>) -> bool {
    &&& previews.len() == entries.len()
    &&& forall|i: int| 0 <= i < entries.len() ==> previews[i]@ == preview_of(entries[i])
}

/// Builds the preview list for a decoded icon directory.
pub fn build_previews(entries: &Vec<IconEntry>) -> (r: Vec<Preview>)
    ensures
        previews_match(r@, entries@.map_values(|e: IconEntry| e@)),
{
    let mut previews: Vec<Preview> = Vec::new();
    let mut i: usize = 0;
    while i < entries.len()
        invariant
            i <= entries.len(),
            previews_match(previews@, entries@.take(i as int).map_values(|e: IconEntry| e@)),
        decreases entries.len() - i,
    {
        let entry = &entries[i];
        let label = size_label(entry.width, entry.height);
        let image_data = vstd::slice::slice_to_vec(entry.data.as_slice());
        previews.push(Preview { image_data, label });
        i += 1;
        assert(entries@.take(i as int).map_values(|e: IconEntry| e@) =~= entries@.take(
            i as int - 1,
        ).map_values(|e: IconEntry| e@) + seq![entries@[i as int - 1]@]);
    }
    assert(entries@.take(entries.len() as int) =~= entries@);
    previews
}

} // verus!
