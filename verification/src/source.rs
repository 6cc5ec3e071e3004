//! The source text that the host has loaded, and the text under a span.

use crate::span::Span;
use vstd::prelude::*;
use vstd::string::*;
use vstd::utf8::*;

verus! {

/// One loaded source file.
#[derive(Debug, PartialEq, Eq)]
pub struct SourceFile {
    pub name: String,
    pub text: String,
}

/// The files whose text is at hand; a span names one of them by its index.
#[derive(Debug, PartialEq, Eq)]
pub struct SourceMap {
    pub files: Vec<SourceFile>,
}

/// The characters that stand in the bytes `lo..hi` of the encoding of `text`,
/// where that range is in bounds and cuts no character in two.
pub open spec fn slice_chars(text: Seq<char>, lo: int, hi: int) -> Option<Seq<char>> {
    let bytes = encode_utf8(text);
    if 0 <= lo <= hi <= bytes.len() && is_char_boundary(bytes, lo) && is_char_boundary(bytes, hi) {
        Some(decode_utf8(bytes.subrange(lo, hi)))
    } else {
        None
    }
}

/// A position that is a character boundary of a text is one of each prefix
/// of the text that ends on a character boundary at or after it.
pub proof fn lemma_boundary_in_prefix(bytes: Seq<u8>, lo: int, hi: int)
    requires
        valid_utf8(bytes),
        0 <= lo <= hi <= bytes.len(),
        is_char_boundary(bytes, lo),
        is_char_boundary(bytes, hi),
    ensures
        valid_utf8(bytes.subrange(0, hi)),
        is_char_boundary(bytes.subrange(0, hi), lo),
{
    let prefix = bytes.subrange(0, hi);
    valid_utf8_split(bytes, hi);
    if lo == hi {
        is_char_boundary_start_end_of_seq(prefix);
    } else {
        is_char_boundary_iff_not_is_continuation_byte(bytes, lo);
        is_char_boundary_iff_not_is_continuation_byte(prefix, lo);
    }
}

/// The part of `text` between the byte offsets `lo` and `hi`.
pub fn slice_str<'a>(text: &'a str, lo: usize, hi: usize) -> (part: Option<&'a str>)
    ensures
        match part {
            Some(p) => slice_chars(text@, lo as int, hi as int) == Some(p@),
            None => slice_chars(text@, lo as int, hi as int) is None,
        },
{
    proof {
        encode_utf8_valid_utf8(text@);
    }
    if lo > hi || hi > text.as_bytes().len() {
        return None;
    }
    if !text.is_char_boundary(lo) || !text.is_char_boundary(hi) {
        return None;
    }
    let ghost bytes = encode_utf8(text@);
    proof {
        lemma_boundary_in_prefix(bytes, lo as int, hi as int);
    }
    let (prefix, _) = text.split_at(hi);
    let (_, part) = prefix.split_at(lo);
    proof {
        assert(part.spec_bytes() =~= bytes.subrange(lo as int, hi as int));
        encode_utf8_decode_utf8(part@);
    }
    Some(part)
}

impl View for SourceMap {
    type V = Seq<Seq<char>>;

    /// The texts of the files, in the order of their indices.
    open spec fn view(&self) -> Seq<Seq<char>> {
        Seq::new(self.files@.len(), |i: int| self.files@[i].text@)
    }
}

/// The text that the user wrote at `span`, among the texts `files`: none for
/// a span that a macro synthesized, that names a file which is not loaded,
/// or whose range is not a range of whole characters of that file.
pub open spec fn text_at(files: Seq<Seq<char>>, span: Span) -> Option<Seq<char>> {
    if span.is_authored() && span.file < files.len() {
        slice_chars(files[span.file as int], span.lo as int, span.hi as int)
    } else {
        None
    }
}

impl SourceMap {
    /// A source map without files.
    pub fn new() -> (map: SourceMap)
        ensures
            map@ == Seq::<Seq<char>>::empty(),
    {
        SourceMap { files: Vec::new() }
    }

    /// Adds a file and returns the index under which spans name it.
    pub fn add_file(&mut self, name: String, text: String) -> (index: usize)
        ensures
            final(self)@ == old(self)@.push(text@),
            index == old(self)@.len(),
    {
        let index = self.files.len();
        self.files.push(SourceFile { name, text });
        index
    }

    /// The source text exactly as written at `span`, if there is any.
    pub fn snippet(&self, span: &Span) -> (text: Option<String>)
        ensures
            match text {
                Some(t) => text_at(self@, *span) == Some(t@),
                None => text_at(self@, *span) is None,
            },
    {
        if !span.is_authored() || span.file >= self.files.len() {
            return None;
        }
        match slice_str(self.files[span.file].text.as_str(), span.lo, span.hi) {
            Some(part) => Some(String::from_str(part)),
            None => None,
        }
    }
}

} // verus!
