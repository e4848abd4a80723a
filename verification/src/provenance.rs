//! The PNG artifacts of the cache and the text chunks that tie each of them
//! to its source file.

use vstd::prelude::*;

use crate::error::ThumbnailError;
use crate::text::{decimal, lemma_decimal_round_trip, parsed_u64, to_decimal};

verus! {

/// One Latin-1 text chunk of a PNG file.
#[derive(Debug)]
pub struct TextChunk {
    pub keyword: String,
    pub text: String,
}

impl View for TextChunk {
    type V = (Seq<char>, Seq<char>);

    open spec fn view(&self) -> (Seq<char>, Seq<char>) {
        (self.keyword@, self.text@)
    }
}

impl TextChunk {
    /// Makes a chunk from its keyword and text.
    pub fn new(keyword: &str, text: &str) -> (chunk: TextChunk)
        ensures
            chunk@ == (keyword@, text@),
    {
        TextChunk { keyword: keyword.to_owned(), text: text.to_owned() }
    }
}

/// The keyword and text of each chunk of a list.
pub open spec fn chunk_seq(chunks: Seq<TextChunk>) -> Seq<(Seq<char>, Seq<char>)> {
    chunks.map_values(|c: TextChunk| c@)
}

/// What the filesystem says of a source file: its modification time in whole
/// seconds since the Unix epoch, and its length in bytes.
#[derive(Clone, Copy, Debug, PartialEq, Eq, Structural)]
pub struct SourceMeta {
    pub mtime: u64,
    pub len: u64,
}

/// A PNG file as the cache sees it: the header fields, the Latin-1 text
/// chunks in file order, and the raw pixel rows.
#[derive(Debug)]
pub struct PngImage {
    pub width: u32,
    pub height: u32,
    /// The colour type byte of the header (6 is RGBA).
    pub color_type: u8,
    /// The bit depth byte of the header.
    pub bit_depth: u8,
    pub text: Vec<TextChunk>,
    pub data: Vec<u8>,
}

/// The mathematical value of a [`PngImage`].
pub struct PngModel {
    pub width: u32,
    pub height: u32,
    pub color_type: u8,
    pub bit_depth: u8,
    pub text: Seq<(Seq<char>, Seq<char>)>,
    pub data: Seq<u8>,
}

impl View for PngImage {
    type V = PngModel;

    open spec fn view(&self) -> PngModel {
        PngModel {
            width: self.width,
            height: self.height,
            color_type: self.color_type,
            bit_depth: self.bit_depth,
            text: chunk_seq(self.text@),
            data: self.data@,
        }
    }
}

/// The text of the first chunk with the given keyword.
pub open spec fn first_text(chunks: Seq<(Seq<char>, Seq<char>)>, keyword: Seq<char>) -> Option<
    Seq<char>,
>
    decreases chunks.len(),
{
    if chunks.len() == 0 {
        None
    } else if chunks[0].0 == keyword {
        Some(chunks[0].1)
    } else {
        first_text(chunks.drop_first(), keyword)
    }
}

/// The chunks that record where a thumbnail came from: the producer, the
/// source's URI, its length and its modification time.
pub open spec fn provenance(uri: Seq<char>, meta: SourceMeta) -> Seq<(Seq<char>, Seq<char>)> {
    seq![
        ("Software"@, "Thumbnailify"@),
        ("Thumb::URI"@, uri),
        ("Thumb::Size"@, decimal(meta.len as nat)),
        ("Thumb::MTime"@, decimal(meta.mtime as nat)),
    ]
}

/// Whether a list of chunks carries all three provenance chunks.
pub open spec fn has_provenance(chunks: Seq<(Seq<char>, Seq<char>)>) -> bool {
    &&& first_text(chunks, "Thumb::URI"@) is Some
    &&& first_text(chunks, "Thumb::MTime"@) is Some
    &&& first_text(chunks, "Thumb::Size"@) is Some
}

/// Whether chunks witness that a thumbnail is up to date with a source in the
/// state `meta`: `Thumb::MTime` is there and denotes the source's modification
/// time, and `Thumb::Size`, where it is there, denotes the source's length. A
/// text that is not an unsigned integer denotes nothing, so it never matches.
pub open spec fn chunks_fresh(chunks: Seq<(Seq<char>, Seq<char>)>, meta: SourceMeta) -> bool {
    &&& first_text(chunks, "Thumb::MTime"@) matches Some(t) && parsed_u64(t) == Some(meta.mtime)
    &&& first_text(chunks, "Thumb::Size"@) matches Some(t) ==> parsed_u64(t) == Some(meta.len)
}

/// Whether a keyword is one of the three that tie a thumbnail to its source.
pub open spec fn is_provenance_key(keyword: Seq<char>) -> bool {
    keyword == "Thumb::URI"@ || keyword == "Thumb::MTime"@ || keyword == "Thumb::Size"@
}

/// The chunks that say nothing of a source: those whose keyword is none of
/// `Thumb::URI`, `Thumb::MTime` and `Thumb::Size`, in their order.
pub open spec fn foreign_chunks(chunks: Seq<(Seq<char>, Seq<char>)>) -> Seq<(Seq<char>, Seq<char>)>
    decreases chunks.len(),
{
    if chunks.len() == 0 {
        Seq::empty()
    } else {
        let before = foreign_chunks(chunks.drop_last());
        if is_provenance_key(chunks.last().0) {
            before
        } else {
            before.push(chunks.last())
        }
    }
}

/// The image with its provenance renewed: what it said of a source before is
/// dropped, and the provenance chunks are added after the chunks that remain.
pub open spec fn with_provenance(image: PngModel, uri: Seq<char>, meta: SourceMeta) -> PngModel {
    PngModel { text: foreign_chunks(image.text) + provenance(uri, meta), ..image }
}

/// A thumbnail made in this process: RGBA, eight bits a channel, with the
/// provenance chunks and no others.
pub open spec fn thumbnail_png(
    width: u32,
    height: u32,
    data: Seq<u8>,
    uri: Seq<char>,
    meta: SourceMeta,
) -> PngModel {
    PngModel { width, height, color_type: 6, bit_depth: 8, text: provenance(uri, meta), data }
}

/// The fail marker: one fully transparent pixel, with the provenance chunks.
pub open spec fn fail_marker(uri: Seq<char>, meta: SourceMeta) -> PngModel {
    thumbnail_png(1, 1, seq![0u8, 0u8, 0u8, 0u8], uri, meta)
}

/// Finds the text of the first chunk with the given keyword.
pub fn find_text<'a>(chunks: &'a Vec<TextChunk>, keyword: &str) -> (text: Option<&'a String>)
    ensures
        match text {
            Some(t) => first_text(chunk_seq(chunks@), keyword@) == Some(t@),
            None => first_text(chunk_seq(chunks@), keyword@) is None,
        },
{
    let key = keyword.to_owned();
    let ghost all = chunk_seq(chunks@);
    let mut i: usize = 0;
    assert(all.skip(0) == all);
    while i < chunks.len()
        invariant
            i <= chunks.len(),
            all == chunk_seq(chunks@),
            key@ == keyword@,
            first_text(all, keyword@) == first_text(all.skip(i as int), keyword@),
        decreases chunks.len() - i,
    {
        assert(all.skip(i as int)[0] == chunks@[i as int]@);
        assert(all.skip(i as int).drop_first() == all.skip(i + 1));
        if chunks[i].keyword == key {
            return Some(&chunks[i].text);
        }
        i += 1;
    }
    None
}

/// Appends the provenance chunks for a source with the given URI and
/// metadata.
pub fn push_provenance(text: &mut Vec<TextChunk>, uri: &str, meta: SourceMeta)
    ensures
        chunk_seq(final(text)@) == chunk_seq(old(text)@) + provenance(uri@, meta),
{
    text.push(TextChunk { keyword: "Software".to_owned(), text: "Thumbnailify".to_owned() });
    text.push(TextChunk { keyword: "Thumb::URI".to_owned(), text: uri.to_owned() });
    text.push(TextChunk { keyword: "Thumb::Size".to_owned(), text: to_decimal(meta.len) });
    text.push(TextChunk { keyword: "Thumb::MTime".to_owned(), text: to_decimal(meta.mtime) });
    assert(chunk_seq(text@) =~= chunk_seq(old(text)@) + provenance(uri@, meta));
}

/// The provenance chunks for a source with the given URI and metadata.
pub fn provenance_chunks(uri: &str, meta: SourceMeta) -> (chunks: Vec<TextChunk>)
    ensures
        chunk_seq(chunks@) == provenance(uri@, meta),
{
    let mut chunks: Vec<TextChunk> = Vec::new();
    push_provenance(&mut chunks, uri, meta);
    assert(chunk_seq(chunks@) =~= provenance(uri@, meta));
    chunks
}

/// Builds the thumbnail artifact for RGBA pixel rows: an RGBA image of eight
/// bits a channel that embeds `Thumb::URI`, `Thumb::Size` and `Thumb::MTime`.
pub fn write_out_thumbnail(width: u32, height: u32, data: Vec<u8>, uri: &str, meta: SourceMeta) -> (image:
    PngImage)
    ensures
        image@ == thumbnail_png(width, height, data@, uri@, meta),
{
    PngImage {
        width,
        height,
        color_type: 6,
        bit_depth: 8,
        text: provenance_chunks(uri, meta),
        data,
    }
}

/// Tells whether a keyword is one of `Thumb::URI`, `Thumb::MTime` and
/// `Thumb::Size`.
pub fn is_provenance_keyword(keyword: &str) -> (b: bool)
    ensures
        b == is_provenance_key(keyword@),
{
    let key = keyword.to_owned();
    key == "Thumb::URI".to_owned() || key == "Thumb::MTime".to_owned() || key
        == "Thumb::Size".to_owned()
}

/// Renews the provenance of a thumbnail that a helper made: chunks that
/// already name a source's URI, modification time or size are dropped, and
/// the provenance chunks are added after the chunks that remain. So the new
/// provenance is what every reader finds.
pub fn add_thumbnail_metadata(thumb: PngImage, uri: &str, meta: SourceMeta) -> (image: PngImage)
    ensures
        image@ == with_provenance(thumb@, uri@, meta),
{
    let mut text: Vec<TextChunk> = Vec::new();
    let ghost all = chunk_seq(thumb.text@);
    let mut i: usize = 0;
    assert(all.take(0) == Seq::<(Seq<char>, Seq<char>)>::empty());
    while i < thumb.text.len()
        invariant
            i <= thumb.text.len(),
            all == chunk_seq(thumb.text@),
            chunk_seq(text@) == foreign_chunks(all.take(i as int)),
        decreases thumb.text.len() - i,
    {
        assert(all.take(i + 1).drop_last() == all.take(i as int));
        assert(all.take(i + 1).last() == thumb.text@[i as int]@);
        let chunk = &thumb.text[i];
        if !is_provenance_keyword(chunk.keyword.as_str()) {
            let ghost before = chunk_seq(text@);
            text.push(TextChunk::new(chunk.keyword.as_str(), chunk.text.as_str()));
            assert(chunk_seq(text@) == before.push(chunk@));
        }
        i += 1;
    }
    assert(all.take(i as int) == all);
    push_provenance(&mut text, uri, meta);
    PngImage {
        width: thumb.width,
        height: thumb.height,
        color_type: thumb.color_type,
        bit_depth: thumb.bit_depth,
        text,
        data: thumb.data,
    }
}

/// Builds the fail marker for a source: a 1x1 fully transparent image that
/// carries the source's provenance.
pub fn write_failed_thumbnail(uri: &str, meta: SourceMeta) -> (image: PngImage)
    ensures
        image@ == fail_marker(uri@, meta),
{
    let mut data: Vec<u8> = Vec::new();
    data.push(0);
    data.push(0);
    data.push(0);
    data.push(0);
    assert(data@ =~= seq![0u8, 0u8, 0u8, 0u8]);
    write_out_thumbnail(1, 1, data, uri, meta)
}

/// The four keywords of the provenance chunks differ from one another.
pub proof fn lemma_keywords_distinct()
    ensures
        "Software"@ != "Thumb::URI"@,
        "Software"@ != "Thumb::Size"@,
        "Software"@ != "Thumb::MTime"@,
        "Thumb::URI"@ != "Thumb::Size"@,
        "Thumb::URI"@ != "Thumb::MTime"@,
        "Thumb::Size"@ != "Thumb::MTime"@,
{
    reveal_strlit("Software");
    reveal_strlit("Thumb::URI");
    reveal_strlit("Thumb::Size");
    reveal_strlit("Thumb::MTime");
    assert("Software"@.len() == 8);
    assert("Thumb::URI"@.len() == 10);
    assert("Thumb::Size"@.len() == 11);
    assert("Thumb::MTime"@.len() == 12);
}

/// The first chunk with a keyword in a concatenation is the first one in the
/// front part, or else the first one in the back part.
pub proof fn lemma_first_text_concat(
    front: Seq<(Seq<char>, Seq<char>)>,
    back: Seq<(Seq<char>, Seq<char>)>,
    keyword: Seq<char>,
)
    ensures
        first_text(front + back, keyword) == match first_text(front, keyword) {
            Some(t) => Some(t),
            None => first_text(back, keyword),
        },
    decreases front.len(),
{
    if front.len() == 0 {
        assert(front + back == back);
    } else {
        assert((front + back)[0] == front[0]);
        assert((front + back).drop_first() == front.drop_first() + back);
        lemma_first_text_concat(front.drop_first(), back, keyword);
    }
}

/// What the provenance chunks hold under each keyword.
pub proof fn lemma_provenance_texts(uri: Seq<char>, meta: SourceMeta)
    ensures
        first_text(provenance(uri, meta), "Thumb::URI"@) == Some(uri),
        first_text(provenance(uri, meta), "Thumb::Size"@) == Some(decimal(meta.len as nat)),
        first_text(provenance(uri, meta), "Thumb::MTime"@) == Some(decimal(meta.mtime as nat)),
        has_provenance(provenance(uri, meta)),
{
    lemma_keywords_distinct();
    let all = provenance(uri, meta);
    let after_software = all.drop_first();
    let after_uri = after_software.drop_first();
    let after_size = after_uri.drop_first();
    assert(after_software[0] == all[1]);
    assert(after_uri[0] == all[2]);
    assert(after_size[0] == all[3]);
    reveal_with_fuel(first_text, 5);
}

/// A thumbnail written for a source in the state `then` is up to date with
/// the source in the state `now` exactly if neither the modification time nor
/// the length has changed.
pub proof fn lemma_provenance_fresh(uri: Seq<char>, then: SourceMeta, now: SourceMeta)
    ensures
        chunks_fresh(provenance(uri, then), now) <==> (then.mtime == now.mtime && then.len
            == now.len),
{
    lemma_provenance_texts(uri, then);
    lemma_decimal_round_trip(then.mtime);
    lemma_decimal_round_trip(then.len);
}

/// Among the chunks that say nothing of a source, none is found under
/// `Thumb::URI`, `Thumb::MTime` or `Thumb::Size`.
pub proof fn lemma_foreign_chunks(chunks: Seq<(Seq<char>, Seq<char>)>, keyword: Seq<char>)
    requires
        is_provenance_key(keyword),
    ensures
        first_text(foreign_chunks(chunks), keyword) is None,
    decreases chunks.len(),
{
    if chunks.len() > 0 {
        lemma_foreign_chunks(chunks.drop_last(), keyword);
        let before = foreign_chunks(chunks.drop_last());
        if !is_provenance_key(chunks.last().0) {
            let last = seq![chunks.last()];
            assert(before.push(chunks.last()) == before + last);
            lemma_first_text_concat(before, last, keyword);
            assert(last[0] == chunks.last());
            assert(last.drop_first() == Seq::<(Seq<char>, Seq<char>)>::empty());
            reveal_with_fuel(first_text, 2);
            assert(first_text(last, keyword) is None);
        }
    }
}

/// Renewing the provenance of an image makes it carry all three provenance
/// chunks and be up to date with its source, whatever chunks it had before:
/// the new modification time and size are the ones that a reader finds.
pub proof fn lemma_fresh_after_metadata(image: PngModel, uri: Seq<char>, meta: SourceMeta)
    ensures
        chunks_fresh(with_provenance(image, uri, meta).text, meta),
        has_provenance(with_provenance(image, uri, meta).text),
        first_text(with_provenance(image, uri, meta).text, "Thumb::URI"@) == Some(uri),
        first_text(with_provenance(image, uri, meta).text, "Thumb::MTime"@) == Some(
            decimal(meta.mtime as nat),
        ),
        first_text(with_provenance(image, uri, meta).text, "Thumb::Size"@) == Some(
            decimal(meta.len as nat),
        ),
{
    let kept = foreign_chunks(image.text);
    let added = provenance(uri, meta);
    lemma_provenance_texts(uri, meta);
    lemma_foreign_chunks(image.text, "Thumb::MTime"@);
    lemma_foreign_chunks(image.text, "Thumb::Size"@);
    lemma_foreign_chunks(image.text, "Thumb::URI"@);
    lemma_first_text_concat(kept, added, "Thumb::MTime"@);
    lemma_first_text_concat(kept, added, "Thumb::Size"@);
    lemma_first_text_concat(kept, added, "Thumb::URI"@);
    lemma_decimal_round_trip(meta.mtime);
    lemma_decimal_round_trip(meta.len);
}

/// Renewing the provenance twice leaves an image as fresh as renewing it
/// once, and for a source that has changed in between it is the later state
/// that counts.
pub proof fn lemma_metadata_renewed(
    image: PngModel,
    uri: Seq<char>,
    then: SourceMeta,
    now: SourceMeta,
)
    ensures
        chunks_fresh(with_provenance(with_provenance(image, uri, then), uri, now).text, now),
        with_provenance(with_provenance(image, uri, then), uri, now).data == image.data,
{
    lemma_fresh_after_metadata(with_provenance(image, uri, then), uri, now);
}

/// A thumbnail made in this process, and a fail marker, carry all three
/// provenance chunks and are up to date with the source they were made for.
pub proof fn lemma_artifacts_fresh(width: u32, height: u32, data: Seq<u8>, uri: Seq<char>, meta: SourceMeta)
    ensures
        chunks_fresh(thumbnail_png(width, height, data, uri, meta).text, meta),
        has_provenance(thumbnail_png(width, height, data, uri, meta).text),
        chunks_fresh(fail_marker(uri, meta).text, meta),
        has_provenance(fail_marker(uri, meta).text),
        fail_marker(uri, meta).width == 1,
        fail_marker(uri, meta).height == 1,
        fail_marker(uri, meta).color_type == 6,
        fail_marker(uri, meta).bit_depth == 8,
        fail_marker(uri, meta).data == seq![0u8, 0u8, 0u8, 0u8],
{
    lemma_provenance_fresh(uri, meta, meta);
    lemma_provenance_texts(uri, meta);
}

/// The Latin-1 text chunks that stand before the pixel data of a PNG file, or
/// `None` for bytes whose header cannot be read as PNG.
pub uninterp spec fn png_text(bytes: Seq<u8>) -> Option<Seq<(Seq<char>, Seq<char>)>>;

/// The size, text chunks and first frame of a PNG file, with its rows
/// expanded to grey or colour samples of at least eight bits, or `None` for
/// bytes that cannot be decoded as PNG.
pub uninterp spec fn png_decoding(bytes: Seq<u8>) -> Option<PngModel>;

/// The PNG file for an image, or `None` for an image that cannot be written
/// as PNG.
pub uninterp spec fn png_encoding(image: PngModel) -> Option<Seq<u8>>;

/// `png::Decoder::read_info` on a byte buffer: the Latin-1 text chunks that
/// the reader's `Info` holds once the header is read, or `None` where the
/// crate rejects the bytes. The result is a function of the bytes.
#[verifier::external_body]
fn png_text_of(bytes: &[u8]) -> (chunks: Option<Vec<TextChunk>>)
    ensures
        match chunks {
            Some(c) => png_text(bytes@) == Some(chunk_seq(c@)),
            None => png_text(bytes@) is None,
        },
{
    let reader = png::Decoder::new(std::io::Cursor::new(bytes)).read_info().ok()?;
    let text = &reader.info().uncompressed_latin1_text;
    Some(text.iter().map(|c| TextChunk::new(&c.keyword, &c.text)).collect())
}

/// `png::Decoder::read_info` and `png::Reader::next_frame` on a byte buffer,
/// with palettes, shallow greys and transparency chunks expanded: the size,
/// the colour type and bit depth of the expanded rows, the text chunks and
/// the first frame, or `None` where the crate rejects the bytes. The result
/// is a function of the bytes.
#[verifier::external_body]
fn png_decode(bytes: &[u8]) -> (image: Option<PngImage>)
    ensures
        match image {
            Some(i) => png_decoding(bytes@) == Some(i@),
            None => png_decoding(bytes@) is None,
        },
{
    let mut decoder = png::Decoder::new(std::io::Cursor::new(bytes));
    decoder.set_transformations(png::Transformations::EXPAND);
    let mut reader = decoder.read_info().ok()?;
    let mut data = vec![0; reader.output_buffer_size()?];
    reader.next_frame(&mut data).ok()?;
    let (color_type, bit_depth) = reader.output_color_type();
    let (color_type, bit_depth) = (color_type as u8, bit_depth as u8);
    let (width, height) = reader.info().size();
    let text = reader.info().uncompressed_latin1_text.iter();
    let text = text.map(|c| TextChunk::new(&c.keyword, &c.text)).collect();
    Some(PngImage { width, height, color_type, bit_depth, text, data })
}

/// The number of samples in a pixel of a colour type of the PNG header;
/// zero for a byte that is no colour type.
pub open spec fn samples_of(color_type: u8) -> int {
    if color_type == 0 || color_type == 3 {
        1
    } else if color_type == 4 {
        2
    } else if color_type == 2 {
        3
    } else if color_type == 6 {
        4
    } else {
        0
    }
}

/// Whether a byte is a bit depth of the PNG header.
pub open spec fn is_bit_depth(bit_depth: u8) -> bool {
    bit_depth == 1 || bit_depth == 2 || bit_depth == 4 || bit_depth == 8 || bit_depth == 16
}

/// The number of bytes in one row of pixels: the samples of the row, packed
/// where a sample has fewer than eight bits.
pub open spec fn row_bytes(color_type: u8, bit_depth: u8, width: u32) -> int {
    let samples = width * samples_of(color_type);
    if bit_depth == 16 {
        samples * 2
    } else if bit_depth == 8 {
        samples
    } else {
        (samples * bit_depth + 7) / 8
    }
}

/// Whether the header names a colour type and a bit depth, and the lengths
/// of a row and of all rows can be computed in machine words.
pub open spec fn size_fits(image: PngModel) -> bool {
    &&& samples_of(image.color_type) > 0
    &&& is_bit_depth(image.bit_depth)
    &&& 2 * samples_of(image.color_type) * image.width + 1 <= usize::MAX
    &&& row_bytes(image.color_type, image.bit_depth, image.width) * image.height <= usize::MAX
}

/// The PNG file for an image: that of the PNG layer where the image's sizes
/// can be computed, and none where they cannot.
pub open spec fn encoded(image: PngModel) -> Option<Seq<u8>> {
    if size_fits(image) {
        png_encoding(image)
    } else {
        None
    }
}

/// `png::Encoder::with_info`, `write_header`, `png::Writer::write_image_data`
/// and `finish` into a byte buffer: the PNG file for `image`, or `None` where
/// the crate rejects the header, a text chunk or the pixel data. The crate
/// computes the length of a row and of all rows without a test for overflow,
/// so the image's sizes are bounded here. The result is a function of the
/// image.
#[verifier::external_body]
fn png_encode(image: &PngImage) -> (bytes: Option<Vec<u8>>)
    requires
        size_fits(image@),
    ensures
        match bytes {
            Some(b) => png_encoding(image@) == Some(b@),
            None => png_encoding(image@) is None,
        },
{
    let mut info = png::Info::with_size(image.width, image.height);
    info.color_type = png::ColorType::from_u8(image.color_type)?;
    info.bit_depth = png::BitDepth::from_u8(image.bit_depth)?;
    let text = image.text.iter();
    info.uncompressed_latin1_text =
        text.map(|c| png::text_metadata::TEXtChunk::new(c.keyword.as_str(), c.text.as_str())).collect();
    let mut out = Vec::new();
    let mut writer = png::Encoder::with_info(&mut out, info).ok()?.write_header().ok()?;
    writer.write_image_data(&image.data).ok()?;
    writer.finish().ok()?;
    Some(out)
}

/// Reads the text chunks of a PNG file without decoding its pixels. `None`
/// means that the bytes are not a PNG file whose header can be read.
pub fn read_text_chunks(bytes: &[u8]) -> (chunks: Option<Vec<TextChunk>>)
    ensures
        match chunks {
            Some(c) => png_text(bytes@) == Some(chunk_seq(c@)),
            None => png_text(bytes@) is None,
        },
{
    png_text_of(bytes)
}

impl PngImage {
    /// Decodes a PNG file. Palette entries are expanded to colours, so that
    /// the image can be written again without its palette. Bytes that the PNG
    /// layer rejects are a `Provenance` error.
    pub fn decode(bytes: &[u8]) -> (image: Result<PngImage, ThumbnailError>)
        ensures
            match image {
                Ok(i) => png_decoding(bytes@) == Some(i@),
                Err(e) => png_decoding(bytes@) is None && e == ThumbnailError::Provenance,
            },
    {
        match png_decode(bytes) {
            Some(image) => Ok(image),
            None => Err(ThumbnailError::Provenance),
        }
    }

    /// Tells whether the header names a colour type and a bit depth, and the
    /// lengths of a row and of all rows can be computed in machine words.
    pub fn fits(&self) -> (b: bool)
        ensures
            b == size_fits(self@),
    {
        let samples: u128 = if self.color_type == 0 || self.color_type == 3 {
            1
        } else if self.color_type == 4 {
            2
        } else if self.color_type == 2 {
            3
        } else if self.color_type == 6 {
            4
        } else {
            return false;
        };
        let depth = self.bit_depth;
        if !(depth == 1 || depth == 2 || depth == 4 || depth == 8 || depth == 16) {
            return false;
        }
        let width: u128 = self.width as u128;
        let height: u128 = self.height as u128;
        let limit: u128 = usize::MAX as u128;
        assert(samples * width <= 4 * 0xffff_ffff && 2 * samples * width == 2 * (samples * width)
            && samples * width * (depth as u128) <= 64 * 0xffff_ffff) by (nonlinear_arith)
            requires
                1 <= samples <= 4,
                width <= 0xffff_ffff,
                depth <= 16,
        ;
        let in_row: u128 = samples * width;
        if 2 * in_row + 1 > limit {
            return false;
        }
        let row: u128 = if depth == 16 {
            in_row * 2
        } else if depth == 8 {
            in_row
        } else {
            (in_row * (depth as u128) + 7) / 8
        };
        assert(row * height <= 8 * 0xffff_ffff * 0xffff_ffff) by (nonlinear_arith)
            requires
                row <= 8 * 0xffff_ffff,
                height <= 0xffff_ffff,
        ;
        row * height <= limit
    }

    /// Encodes the image as a PNG file. An image that the PNG layer rejects,
    /// or whose sizes cannot be computed, is a `Provenance` error.
    pub fn encode(&self) -> (bytes: Result<Vec<u8>, ThumbnailError>)
        ensures
            match bytes {
                Ok(b) => encoded(self@) == Some(b@),
                Err(e) => encoded(self@) is None && e == ThumbnailError::Provenance,
            },
    {
        if !self.fits() {
            return Err(ThumbnailError::Provenance);
        }
        match png_encode(self) {
            Some(bytes) => Ok(bytes),
            None => Err(ThumbnailError::Provenance),
        }
    }
}

} // verus!
