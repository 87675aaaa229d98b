//! Which candidate files are embedded in the document, and the exact text of
//! the section each one contributes.
use vstd::prelude::*;
use crate::policy::{get_ignore_extensions, ignored_extensions, str_eq, table_contains};
use crate::text::{blank, decode_lossy, forward_slashes, is_blank, lossy_utf8_of, lower_of};
use crate::text::{ascii_space, normalize_separators, to_lower};
use vstd::utf8::{decode_utf8, encode_utf8, encode_utf8_decode_utf8, encode_utf8_valid_utf8};
use vstd::utf8::{is_ascii_chars, is_ascii_chars_encode_utf8, valid_utf8};

verus! {

/// Files larger than this many bytes are never embedded.
pub const MAX_FILE_SIZE: u64 = 1048576;

/// How many leading bytes of a file are inspected for a zero byte.
pub const SNIFF_LEN: usize = 1024;

/// The document being written, as the self-exclusion rule sees it.
pub struct OutputTarget {
    /// The document's file name.
    pub file_name: String,
    /// The document's absolute path, resolved where that succeeded.
    pub abs_path: String,
}

/// What is known of one candidate file when it is offered to the writer.
/// A `None` stands for a value that could not be obtained.
pub struct FileFacts {
    /// The file's own name.
    pub name: String,
    /// Its resolved absolute path.
    pub canonical: Option<String>,
    /// Its path relative to the walked root, with the platform's separators.
    pub rel_path: String,
    /// Its extension, without the dot.
    pub extension: Option<String>,
    /// Its size in bytes.
    pub size: Option<u64>,
    /// The bytes of its first read, of at most `SNIFF_LEN` bytes.
    pub head: Option<Vec<u8>>,
    /// Its whole contents.
    pub contents: Option<Vec<u8>>,
}

/// The abstract value of a `FileFacts`.
pub ghost struct FileModel {
    pub name: Seq<char>,
    pub canonical: Option<Seq<char>>,
    pub rel_path: Seq<char>,
    pub extension: Option<Seq<char>>,
    pub size: Option<u64>,
    pub head: Option<Seq<u8>>,
    pub contents: Option<Seq<u8>>,
}

pub open spec fn chars_of(o: Option<String>) -> Option<Seq<char>> {
    match o {
        Some(s) => Some(s@),
        None => None,
    }
}

pub open spec fn bytes_of(o: Option<Vec<u8>>) -> Option<Seq<u8>> {
    match o {
        Some(v) => Some(v@),
        None => None,
    }
}

impl View for FileFacts {
    type V = FileModel;

    open spec fn view(&self) -> FileModel {
        FileModel {
            name: self.name@,
            canonical: chars_of(self.canonical),
            rel_path: self.rel_path@,
            extension: chars_of(self.extension),
            size: self.size,
            head: bytes_of(self.head),
            contents: bytes_of(self.contents),
        }
    }
}

/// The file is the document itself: same file name, or same resolved path.
pub open spec fn self_output(name: Seq<char>, canonical: Option<Seq<char>>, out: OutputTarget) -> bool {
    name == out.file_name@ || (canonical is Some && canonical->0 == out.abs_path@)
}

/// Whether the file named `name`, resolved to `canonical`, is the document.
pub fn is_output_file(out: &OutputTarget, name: &str, canonical: Option<&str>) -> (r: bool)
    ensures
        r == self_output(name@, match canonical { Some(c) => Some(c@), None => None }, *out),
{
    if str_eq(name, out.file_name.as_str()) {
        return true;
    }
    match canonical {
        Some(c) => str_eq(c, out.abs_path.as_str()),
        None => false,
    }
}

/// The extension, lower-cased and with its leading dot, is on the denylist.
pub open spec fn extension_ignored(ext: Option<Seq<char>>) -> bool {
    ext is Some && ignored_extensions().contains(seq!['.'] + lower_of(ext->0))
}

/// Whether a file with this extension is left out; a file without one is not.
pub fn is_ignored_extension(ext: Option<&str>) -> (r: bool)
    ensures
        r == extension_ignored(match ext { Some(e) => Some(e@), None => None }),
{
    match ext {
        Some(e) => {
            let mut dotted = String::from_str(".");
            let lower = to_lower(e);
            dotted.append(lower.as_str());
            proof {
                reveal_strlit(".");
            }
            assert(dotted@ =~= seq!['.'] + lower_of(e@));
            table_contains(&get_ignore_extensions(), dotted.as_str())
        },
        None => false,
    }
}

/// The size is known and over the cap.
pub open spec fn oversized(size: Option<u64>) -> bool {
    size is Some && size->0 > MAX_FILE_SIZE
}

/// Whether a file of this size is left out; an unknown size does not exclude.
pub fn exceeds_size_cap(size: Option<u64>) -> (r: bool)
    ensures
        r == oversized(size),
{
    match size {
        Some(n) => n > MAX_FILE_SIZE,
        None => false,
    }
}

/// No zero byte among the first `SNIFF_LEN` bytes read; an empty read is text.
pub open spec fn text_head(head: Seq<u8>) -> bool {
    forall|i: int| 0 <= i < head.len() && i < SNIFF_LEN ==> #[trigger] head[i] != 0
}

/// Whether the first read of a file shows text. A failed open or read
/// (`None`) counts as not text.
pub fn is_text_file(head: Option<&[u8]>) -> (r: bool)
    ensures
        r == match head {
            Some(b) => text_head(b@),
            None => false,
        },
{
    match head {
        None => false,
        Some(b) => {
            let n: usize = if b.len() < SNIFF_LEN { b.len() } else { SNIFF_LEN };
            let mut i: usize = 0;
            while i < n
                invariant
                    n <= b@.len(),
                    head == Some(b),
                    n <= SNIFF_LEN,
                    n == b@.len() || n == SNIFF_LEN,
                    0 <= i <= n,
                    forall|j: int| 0 <= j < i ==> #[trigger] b@[j] != 0,
                decreases n - i,
            {
                if b[i] == 0 {
                    assert(b@[i as int] == 0 && i < SNIFF_LEN);

                    return false;
                }
                i = i + 1;
            }
            true
        },
    }
}

/// The code-block tag: the lower-cased extension, or nothing.
pub open spec fn language_tag(ext: Option<Seq<char>>) -> Seq<char> {
    match ext {
        Some(e) => lower_of(e),
        None => Seq::empty(),
    }
}

/// One section of the document.
pub open spec fn section_text(rel_path: Seq<char>, tag: Seq<char>, content: Seq<char>) -> Seq<char> {
    "## File: "@ + rel_path + "\n\n```"@ + tag + "\n"@ + content + "\n```\n\n"@
}

/// The section for a file at `rel_path` with extension `ext` and decoded
/// contents `content`; separators in the path become forward slashes.
pub fn render_section(rel_path: &str, ext: Option<&str>, content: &str) -> (r: String)
    ensures
        r@ == section_text(
            forward_slashes(rel_path@),
            language_tag(match ext { Some(e) => Some(e@), None => None }),
            content@,
        ),
{
    let path = normalize_separators(rel_path);
    let tag = match ext {
        Some(e) => to_lower(e),
        None => String::new(),
    };
    let mut r = String::from_str("## File: ");
    r.append(path.as_str());
    r.append("\n\n```");
    r.append(tag.as_str());
    r.append("\n");
    r.append(content);
    r.append("\n```\n\n");
    r
}

/// The section that these contents yield, if they are not blank once decoded.
pub open spec fn contents_section(rel_path: Seq<char>, ext: Option<Seq<char>>, bytes: Seq<u8>) -> Option<Seq<char>> {
    let content = lossy_utf8_of(bytes);
    if blank(content) {
        None
    } else {
        Some(section_text(forward_slashes(rel_path), language_tag(ext), content))
    }
}

/// Bytes that are all spaces, tabs, line feeds or carriage returns.
pub open spec fn whitespace_bytes(b: Seq<u8>) -> bool {
    forall|i: int| 0 <= i < b.len() ==> (#[trigger] b[i] == 0x20 || b[i] == 0x09 || b[i] == 0x0a || b[i] == 0x0d)
}

proof fn whitespace_bytes_decode(b: Seq<u8>)
    requires
        whitespace_bytes(b),
    ensures
        valid_utf8(b),
        forall|i: int| 0 <= i < decode_utf8(b).len() ==> ascii_space(#[trigger] decode_utf8(b)[i]),
{
    let c = Seq::new(b.len(), |i: int| b[i] as char);
    assert(is_ascii_chars(c));
    is_ascii_chars_encode_utf8(c);
    assert(encode_utf8(c) =~= b);
    encode_utf8_valid_utf8(c);
    encode_utf8_decode_utf8(c);
}

/// Decodes the contents and renders their section, or `None` where they hold
/// only whitespace. Empty contents and contents of ASCII whitespace bytes
/// give no section.
pub fn section_for_contents(rel_path: &str, ext: Option<&str>, bytes: &[u8]) -> (r: Option<String>)
    ensures
        match contents_section(rel_path@, match ext { Some(e) => Some(e@), None => None }, bytes@) {
            Some(s) => r is Some && r->0@ == s,
            None => r is None,
        },
        bytes@.len() == 0 ==> r is None,
        whitespace_bytes(bytes@) ==> r is None,
{
    let content = decode_lossy(bytes);
    proof {
        if whitespace_bytes(bytes@) {
            whitespace_bytes_decode(bytes@);
        }
    }
    if is_blank(content.as_str()) {
        None
    } else {
        Some(render_section(rel_path, ext, content.as_str()))
    }
}

/// Left out on what is known before the file is opened.
pub open spec fn skipped_before_read(f: FileModel, out: OutputTarget) -> bool {
    self_output(f.name, f.canonical, out) || extension_ignored(f.extension) || oversized(f.size)
}

/// The section a candidate file contributes, if any: the filters apply in
/// order and the first that matches leaves the file out.
pub open spec fn file_section(f: FileModel, out: OutputTarget) -> Option<Seq<char>> {
    if skipped_before_read(f, out) {
        None
    } else if !(f.head is Some && text_head(f.head->0)) {
        None
    } else {
        match f.contents {
            Some(b) => contents_section(f.rel_path, f.extension, b),
            None => None,
        }
    }
}

/// The whole document: the sections of the candidates, in walk order.
pub open spec fn document(files: Seq<FileModel>, out: OutputTarget) -> Seq<char>
    decreases files.len(),
{
    if files.len() == 0 {
        Seq::empty()
    } else {
        let rest = document(files.drop_last(), out);
        match file_section(files.last(), out) {
            Some(s) => rest + s,
            None => rest,
        }
    }
}

fn opt_str(o: &Option<String>) -> (r: Option<&str>)
    ensures
        r is Some <==> o is Some,
        r is Some ==> r->0@ == o->0@,
{
    match o {
        Some(s) => Some(s.as_str()),
        None => None,
    }
}

/// Whether the file must still be opened: no filter that needs only its
/// name, path, extension and size has left it out.
pub fn needs_contents(f: &FileFacts, out: &OutputTarget) -> (r: bool)
    ensures
        r == !skipped_before_read(f@, *out),
{
    if is_output_file(out, f.name.as_str(), opt_str(&f.canonical)) {
        return false;
    }
    if is_ignored_extension(opt_str(&f.extension)) {
        return false;
    }
    !exceeds_size_cap(f.size)
}

/// The section that a candidate file contributes to the document, if any.
pub fn section_for(f: &FileFacts, out: &OutputTarget) -> (r: Option<String>)
    ensures
        match file_section(f@, *out) {
            Some(s) => r is Some && r->0@ == s,
            None => r is None,
        },
        match f@.contents {
            Some(b) => whitespace_bytes(b) ==> r is None,
            None => r is None,
        },
{
    if !needs_contents(f, out) {
        return None;
    }
    let head = match &f.head {
        Some(h) => Some(h.as_slice()),
        None => None,
    };
    if !is_text_file(head) {
        return None;
    }
    match &f.contents {
        Some(b) => section_for_contents(f.rel_path.as_str(), opt_str(&f.extension), b.as_slice()),
        None => None,
    }
}

/// The document never embeds itself: a file that bears the document's name,
/// or resolves to the document's path, contributes no section, whatever it
/// holds.
pub proof fn output_file_never_embedded(f: FileModel, out: OutputTarget)
    requires
        self_output(f.name, f.canonical, out),
    ensures
        file_section(f, out) is None,
{
}

/// A file with a zero byte among its first `SNIFF_LEN` bytes contributes no
/// section, whatever its extension.
pub proof fn zero_byte_in_head_excludes(f: FileModel, out: OutputTarget, i: int)
    requires
        f.head is Some,
        0 <= i < f.head->0.len(),
        i < SNIFF_LEN,
        f.head->0[i] == 0,
    ensures
        file_section(f, out) is None,
{
}

/// Running again over an unchanged tree, which now also holds the earlier
/// document at any place in the walk, writes the same document.
pub proof fn rerun_writes_same_document(files: Seq<FileModel>, prev: FileModel, i: int, out: OutputTarget)
    requires
        0 <= i <= files.len(),
        self_output(prev.name, prev.canonical, out),
    ensures
        document(files.insert(i, prev), out) == document(files, out),
    decreases files.len(),
{
    let grown = files.insert(i, prev);
    if i == files.len() {
        assert(grown.drop_last() =~= files);
    } else {
        assert(grown.drop_last() =~= files.drop_last().insert(i, prev));
        assert(grown.last() == files.last());
        rerun_writes_same_document(files.drop_last(), prev, i, out);
    }
}

} // verus!
