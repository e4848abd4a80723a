//! External thumbnailers: where their descriptors are looked for, how a
//! descriptor is read and chosen by MIME type, how its command line is
//! filled in, and how the command is wrapped in a sandbox.

use vstd::prelude::*;

use crate::error::ThumbnailError;
use crate::text::{
    chars_of, decimal, decimal_chars, option_str_view, option_view, pieces_view, push_chars,
    split_chars, split_on, string_of, strings_view, trim_chars, trimmed,
};

pub use crate::generate::generate_thumbnail;
pub use crate::thumbnail::is_thumbnail_up_to_date;

verus! {

/// The `rust-ini` crate's parsed INI file.
#[verifier::external_type_specification]
#[verifier::external_body]
pub struct ExIni(ini::Ini);

/// What an INI file holds: for a section name and a key, the value that a
/// lookup finds.
pub uninterp spec fn ini_entries(conf: ini::Ini) -> Map<(Seq<char>, Seq<char>), Seq<char>>;

/// What an INI text holds once parsed, or `None` for a text that is not
/// well-formed INI.
pub uninterp spec fn ini_parsed(text: Seq<char>) -> Option<Map<(Seq<char>, Seq<char>), Seq<char>>>;

/// The words of a command line split as a POSIX shell would, or `None` for a
/// line with an unmatched quote.
pub uninterp spec fn shell_words(line: Seq<char>) -> Option<Seq<Seq<char>>>;

/// The MIME type guessed from the extension of a path;
/// `application/octet-stream` where the extension says nothing.
pub uninterp spec fn guessed_mime(path: Seq<char>) -> Seq<char>;

/// Whether the in-process codec reads images of a MIME type.
pub uninterp spec fn codec_handles(mime: Seq<char>) -> bool;

/// `Ini::load_from_str` of the `rust-ini` crate: the parsed file, or `None`
/// where the crate reports a parse error. What the file holds is a function
/// of the text.
#[verifier::external_body]
fn ini_load(text: &str) -> (conf: Option<ini::Ini>)
    ensures
        match conf {
            Some(c) => ini_parsed(text@) == Some(ini_entries(c)),
            None => ini_parsed(text@) is None,
        },
{
    ini::Ini::load_from_str(text).ok()
}

/// `Ini::get_from` of the `rust-ini` crate: the value found for `key` in the
/// section named `section`, or `None` where the lookup finds none.
#[verifier::external_body]
fn ini_get(conf: &ini::Ini, section: &str, key: &str) -> (value: Option<String>)
    ensures
        match value {
            Some(v) => ini_entries(*conf).contains_key((section@, key@)) && ini_entries(
                *conf,
            )[(section@, key@)] == v@,
            None => !ini_entries(*conf).contains_key((section@, key@)),
        },
{
    conf.get_from(Some(section), key).map(String::from)
}

/// `shell_words::split`: the words of the line, or `None` where the crate
/// reports an unmatched quote. The result is a function of the line.
#[verifier::external_body]
fn shell_split(line: &str) -> (words: Option<Vec<String>>)
    ensures
        match words {
            Some(w) => shell_words(line@) == Some(strings_view(w@)),
            None => shell_words(line@) is None,
        },
{
    shell_words::split(line).ok()
}

/// `mime_guess::from_path`, with the guess reduced to one type by
/// `first_or_octet_stream` and written out by `essence_str`: the MIME type
/// that the crate's table gives for the extension of `path`. No file is
/// touched. The result is a function of the path.
#[verifier::external_body]
pub(crate) fn guess_mime(path: &str) -> (mime: String)
    ensures
        mime@ == guessed_mime(path@),
{
    mime_guess::from_path(path).first_or_octet_stream().essence_str().to_owned()
}

/// `ImageFormat::from_mime_type` and `ImageFormat::reading_enabled` of the
/// `image` crate: whether the crate knows a format for the MIME type and can
/// decode it. The result is a function of the MIME type.
#[verifier::external_body]
pub(crate) fn codec_reads(mime: &str) -> (known: bool)
    ensures
        known == codec_handles(mime@),
{
    match image::ImageFormat::from_mime_type(mime) {
        Some(format) => format.reading_enabled(),
        None => false,
    }
}

/// What a helper descriptor says, as far as the cache uses it.
#[derive(Debug)]
pub struct ThumbnailerConfig {
    /// The program that must be on the search path for the helper to be used.
    pub try_exec: Option<String>,
    /// The command template.
    pub exec_line: String,
    /// The MIME types that the helper handles.
    pub mime_types: Vec<String>,
}

/// The mathematical value of a [`ThumbnailerConfig`].
pub struct ConfigModel {
    pub try_exec: Option<Seq<char>>,
    pub exec_line: Seq<char>,
    pub mime_types: Seq<Seq<char>>,
}

impl View for ThumbnailerConfig {
    type V = ConfigModel;

    open spec fn view(&self) -> ConfigModel {
        ConfigModel {
            try_exec: option_view(self.try_exec),
            exec_line: self.exec_line@,
            mime_types: strings_view(self.mime_types@),
        }
    }
}

/// The value of the outcome of a search for a helper.
pub open spec fn found_view(found: Result<Option<ThumbnailerConfig>, ThumbnailError>) -> Result<
    Option<ConfigModel>,
    ThumbnailError,
> {
    match found {
        Ok(Some(c)) => Ok(Some(c@)),
        Ok(None) => Ok(None),
        Err(e) => Err(e),
    }
}

/// The directories that are searched for helper descriptors, in order of
/// priority: the user's, then each entry of the colon-separated data
/// directories, then the system's.
pub open spec fn helper_dirs(home: Option<Seq<char>>, data_dirs: Option<Seq<char>>) -> Seq<
    Seq<char>,
> {
    (match home {
        Some(h) => seq![h + "/.local/share/thumbnailers"@],
        None => Seq::empty(),
    }) + (match data_dirs {
        Some(d) => split_on(d, ':').map_values(|dir: Seq<char>| dir + "/thumbnailers"@),
        None => Seq::empty(),
    }) + seq!["/usr/share/thumbnailers"@]
}

/// Lists the directories to search for helper descriptors, given the home
/// directory and the data directories that the environment names.
pub fn thumbnailer_dirs(home: Option<&str>, data_dirs: Option<&str>) -> (dirs: Vec<String>)
    ensures
        strings_view(dirs@) == helper_dirs(option_str_view(home), option_str_view(data_dirs)),
{
    let mut dirs: Vec<String> = Vec::new();
    if let Some(h) = home {
        let mut dir: Vec<char> = Vec::new();
        push_chars(&mut dir, h);
        push_chars(&mut dir, "/.local/share/thumbnailers");
        dirs.push(string_of(&dir));
    }
    let ghost first = strings_view(dirs@);
    assert(first == match home {
        Some(h) => seq![h@ + "/.local/share/thumbnailers"@],
        None => Seq::<Seq<char>>::empty(),
    });
    if let Some(d) = data_dirs {
        let all = chars_of(d);
        let entries = split_chars(&all, ':');
        let ghost wanted = split_on(d@, ':').map_values(|dir: Seq<char>| dir + "/thumbnailers"@);
        let mut i: usize = 0;
        while i < entries.len()
            invariant
                i <= entries.len(),
                pieces_view(entries@) == split_on(d@, ':'),
                wanted == split_on(d@, ':').map_values(|dir: Seq<char>| dir + "/thumbnailers"@),
                strings_view(dirs@) == first + wanted.take(i as int),
            decreases entries.len() - i,
        {
            let mut dir: Vec<char> = Vec::new();
            let entry = &entries[i];
            let mut k: usize = 0;
            while k < entry.len()
                invariant
                    k <= entry.len(),
                    dir@ == entry@.take(k as int),
                decreases entry.len() - k,
            {
                dir.push(entry[k]);
                k += 1;
            }
            assert(dir@ == entry@);
            push_chars(&mut dir, "/thumbnailers");
            assert(pieces_view(entries@)[i as int] == entry@);
            assert(dir@ == wanted[i as int]);
            let ghost before = strings_view(dirs@);
            dirs.push(string_of(&dir));
            assert(strings_view(dirs@) == before.push(wanted[i as int]));
            assert(wanted.take(i + 1) == wanted.take(i as int).push(wanted[i as int]));
            i += 1;
        }
        assert(wanted.take(i as int) == wanted);
    }
    let ghost second = strings_view(dirs@);
    dirs.push("/usr/share/thumbnailers".to_owned());
    assert(strings_view(dirs@) == second.push("/usr/share/thumbnailers"@));
    assert(strings_view(dirs@) == helper_dirs(option_str_view(home), option_str_view(data_dirs)));
    dirs
}

/// Whether a file name has the extension of a helper descriptor: it ends in
/// `.thumbnailer` and has something before that.
pub open spec fn is_descriptor(name: Seq<char>) -> bool {
    let suffix = ".thumbnailer"@;
    name.len() > suffix.len() && name.skip(name.len() - suffix.len()) == suffix
}

/// Tells whether a file name is that of a helper descriptor.
pub fn is_descriptor_name(name: &str) -> (b: bool)
    ensures
        b == is_descriptor(name@),
{
    let n = chars_of(name);
    let suffix = chars_of(".thumbnailer");
    if n.len() <= suffix.len() {
        return false;
    }
    let offset: usize = n.len() - suffix.len();
    let ghost tail = n@.skip(offset as int);
    let mut i: usize = 0;
    while i < suffix.len()
        invariant
            i <= suffix.len(),
            offset + suffix.len() == n.len(),
            n@ == name@,
            suffix@ == ".thumbnailer"@,
            tail == n@.skip(offset as int),
            tail.take(i as int) == suffix@.take(i as int),
        decreases suffix.len() - i,
    {
        if n[offset + i] != suffix[i] {
            assert(tail[i as int] != suffix@[i as int]);
            return false;
        }
        assert(tail.take(i + 1) == tail.take(i as int).push(tail[i as int]));
        assert(suffix@.take(i + 1) == suffix@.take(i as int).push(suffix@[i as int]));
        i += 1;
    }
    assert(tail.take(i as int) == tail);
    assert(suffix@.take(i as int) == suffix@);
    true
}

/// The pieces that remain once each is trimmed and the empty ones are
/// dropped.
pub open spec fn kept(pieces: Seq<Seq<char>>) -> Seq<Seq<char>>
    decreases pieces.len(),
{
    if pieces.len() == 0 {
        Seq::empty()
    } else {
        let before = kept(pieces.drop_last());
        let t = trimmed(pieces.last());
        if t.len() == 0 {
            before
        } else {
            before.push(t)
        }
    }
}

/// The MIME types of a `MimeType` value: its `;`-separated entries with
/// blanks stripped, empty entries left out.
pub open spec fn mime_list(value: Seq<char>) -> Seq<Seq<char>> {
    kept(split_on(value, ';'))
}

/// Reads the list of MIME types of a `MimeType` value.
pub fn mime_types_of(value: &str) -> (mimes: Vec<String>)
    ensures
        strings_view(mimes@) == mime_list(value@),
{
    let all = chars_of(value);
    let pieces = split_chars(&all, ';');
    let ghost parts = pieces_view(pieces@);
    let mut mimes: Vec<String> = Vec::new();
    let mut i: usize = 0;
    assert(parts.take(0) == Seq::<Seq<char>>::empty());
    while i < pieces.len()
        invariant
            i <= pieces.len(),
            parts == pieces_view(pieces@),
            strings_view(mimes@) == kept(parts.take(i as int)),
        decreases pieces.len() - i,
    {
        assert(parts.take(i + 1).drop_last() == parts.take(i as int));
        assert(parts.take(i + 1).last() == pieces@[i as int]@);
        let t = trim_chars(&pieces[i]);
        if t.len() > 0 {
            let ghost before = strings_view(mimes@);
            mimes.push(string_of(&t));
            assert(strings_view(mimes@) == before.push(t@));
        }
        i += 1;
    }
    assert(parts.take(i as int) == parts);
    mimes
}

/// Tells whether `list` holds `item`, compared character by character.
pub fn contains_string(list: &Vec<String>, item: &str) -> (found: bool)
    ensures
        found == strings_view(list@).contains(item@),
{
    let wanted = item.to_owned();
    let mut i: usize = 0;
    while i < list.len()
        invariant
            i <= list.len(),
            wanted@ == item@,
            forall|k: int| 0 <= k < i ==> strings_view(list@)[k] != item@,
        decreases list.len() - i,
    {
        if list[i] == wanted {
            assert(strings_view(list@)[i as int] == item@);
            return true;
        }
        i += 1;
    }
    false
}

/// What a descriptor means for a MIME type, given the values of its
/// `MimeType`, `Exec` and `TryExec` keys: no match if it does not list the
/// type; a malformed descriptor if it lists the type but has no `Exec`; else
/// the helper.
pub open spec fn entry_for(
    mime_value: Option<Seq<char>>,
    exec: Option<Seq<char>>,
    try_exec: Option<Seq<char>>,
    mime_type: Seq<char>,
) -> Result<Option<ConfigModel>, ThumbnailError> {
    match mime_value {
        None => Ok(None),
        Some(value) => if !mime_list(value).contains(mime_type) {
            Ok(None)
        } else {
            match exec {
                None => Err(ThumbnailError::BadConfig),
                Some(line) => Ok(
                    Some(ConfigModel { try_exec, exec_line: line, mime_types: mime_list(value) }),
                ),
            }
        },
    }
}

/// The value of a key of the `Thumbnailer Entry` section.
pub open spec fn entry_value(entries: Map<(Seq<char>, Seq<char>), Seq<char>>, key: Seq<char>) -> Option<
    Seq<char>,
> {
    if entries.contains_key(("Thumbnailer Entry"@, key)) {
        Some(entries[("Thumbnailer Entry"@, key)])
    } else {
        None
    }
}

/// What a descriptor means for a MIME type, given what the INI layer makes
/// of its text: a text that is not well-formed INI is a malformed descriptor.
pub open spec fn descriptor_for(
    parsed: Option<Map<(Seq<char>, Seq<char>), Seq<char>>>,
    mime_type: Seq<char>,
) -> Result<Option<ConfigModel>, ThumbnailError> {
    match parsed {
        None => Err(ThumbnailError::BadConfig),
        Some(entries) => entry_for(
            entry_value(entries, "MimeType"@),
            entry_value(entries, "Exec"@),
            entry_value(entries, "TryExec"@),
            mime_type,
        ),
    }
}

/// Decides what a descriptor means for a MIME type from the values of its
/// keys.
pub fn select_entry(
    mime_value: Option<String>,
    exec: Option<String>,
    try_exec: Option<String>,
    mime_type: &str,
) -> (found: Result<Option<ThumbnailerConfig>, ThumbnailError>)
    ensures
        found_view(found) == entry_for(
            option_view(mime_value),
            option_view(exec),
            option_view(try_exec),
            mime_type@,
        ),
{
    let value = match mime_value {
        Some(v) => v,
        None => {
            return Ok(None);
        },
    };
    let mimes = mime_types_of(value.as_str());
    if !contains_string(&mimes, mime_type) {
        return Ok(None);
    }
    match exec {
        Some(line) => Ok(Some(ThumbnailerConfig { try_exec, exec_line: line, mime_types: mimes })),
        None => Err(ThumbnailError::BadConfig),
    }
}

/// Reads one helper descriptor and decides what it means for a MIME type.
pub fn parse_thumbnailer(text: &str, mime_type: &str) -> (found: Result<
    Option<ThumbnailerConfig>,
    ThumbnailError,
>)
    ensures
        found_view(found) == descriptor_for(ini_parsed(text@), mime_type@),
{
    let conf = match ini_load(text) {
        Some(c) => c,
        None => {
            return Err(ThumbnailError::BadConfig);
        },
    };
    let mime_value = ini_get(&conf, "Thumbnailer Entry", "MimeType");
    let exec = ini_get(&conf, "Thumbnailer Entry", "Exec");
    let try_exec = ini_get(&conf, "Thumbnailer Entry", "TryExec");
    select_entry(mime_value, exec, try_exec, mime_type)
}

/// The helper for a MIME type among descriptors in order of priority: the
/// first well-formed descriptor that lists the type. Malformed descriptors are
/// passed over; they make the search fail only if it finds no helper.
/// `damaged` says whether a malformed descriptor was passed over already.
pub open spec fn select_helper(descriptors: Seq<Seq<char>>, mime_type: Seq<char>, damaged: bool) -> Result<
    Option<ConfigModel>,
    ThumbnailError,
>
    decreases descriptors.len(),
{
    if descriptors.len() == 0 {
        if damaged {
            Err(ThumbnailError::BadConfig)
        } else {
            Ok(None)
        }
    } else {
        match descriptor_for(ini_parsed(descriptors[0]), mime_type) {
            Ok(Some(c)) => Ok(Some(c)),
            Ok(None) => select_helper(descriptors.drop_first(), mime_type, damaged),
            Err(_) => select_helper(descriptors.drop_first(), mime_type, true),
        }
    }
}

/// Whether a descriptor is well-formed and lists the MIME type.
pub open spec fn is_match(text: Seq<char>, mime_type: Seq<char>) -> bool {
    descriptor_for(ini_parsed(text), mime_type) matches Ok(Some(_))
}

/// Whether a descriptor is malformed, as far as the MIME type is concerned.
pub open spec fn is_malformed(text: Seq<char>, mime_type: Seq<char>) -> bool {
    descriptor_for(ini_parsed(text), mime_type) is Err
}

/// The first match wins: a well-formed descriptor that lists the MIME type is
/// the helper if no descriptor of higher priority is one too, whatever
/// malformed descriptors there are.
pub proof fn lemma_first_match_wins(
    descriptors: Seq<Seq<char>>,
    mime_type: Seq<char>,
    damaged: bool,
    i: int,
)
    requires
        0 <= i < descriptors.len(),
        is_match(descriptors[i], mime_type),
        forall|k: int| 0 <= k < i ==> !is_match(#[trigger] descriptors[k], mime_type),
    ensures
        select_helper(descriptors, mime_type, damaged) == descriptor_for(
            ini_parsed(descriptors[i]),
            mime_type,
        ),
    decreases i,
{
    if i > 0 {
        let rest = descriptors.drop_first();
        assert(!is_match(descriptors[0], mime_type));
        assert forall|k: int| 0 <= k < i - 1 implies !is_match(#[trigger] rest[k], mime_type) by {
            assert(rest[k] == descriptors[k + 1]);
        }
        assert(rest[i - 1] == descriptors[i]);
        lemma_first_match_wins(rest, mime_type, damaged, i - 1);
        lemma_first_match_wins(rest, mime_type, true, i - 1);
    }
}

/// Without a match the search finds no helper; it fails exactly if some
/// descriptor is malformed.
pub proof fn lemma_no_match(descriptors: Seq<Seq<char>>, mime_type: Seq<char>, damaged: bool)
    requires
        forall|k: int|
            0 <= k < descriptors.len() ==> !is_match(#[trigger] descriptors[k], mime_type),
    ensures
        select_helper(descriptors, mime_type, damaged) == (if damaged || exists|k: int|
            0 <= k < descriptors.len() && is_malformed(#[trigger] descriptors[k], mime_type) {
            Err::<Option<ConfigModel>, ThumbnailError>(ThumbnailError::BadConfig)
        } else {
            Ok(None)
        }),
    decreases descriptors.len(),
{
    if descriptors.len() > 0 {
        let rest = descriptors.drop_first();
        assert(!is_match(descriptors[0], mime_type));
        assert forall|k: int| 0 <= k < rest.len() implies !is_match(#[trigger] rest[k], mime_type) by {
            assert(rest[k] == descriptors[k + 1]);
        }
        let later = exists|k: int| 0 <= k < rest.len() && is_malformed(#[trigger] rest[k], mime_type);
        let any = exists|k: int|
            0 <= k < descriptors.len() && is_malformed(#[trigger] descriptors[k], mime_type);
        if later {
            let k = choose|k: int| 0 <= k < rest.len() && is_malformed(#[trigger] rest[k], mime_type);
            assert(rest[k] == descriptors[k + 1]);
            assert(is_malformed(descriptors[k + 1], mime_type));
        }
        if any && !is_malformed(descriptors[0], mime_type) {
            let k = choose|k: int|
                0 <= k < descriptors.len() && is_malformed(#[trigger] descriptors[k], mime_type);
            assert(rest[k - 1] == descriptors[k]);
            assert(is_malformed(rest[k - 1], mime_type));
        }
        lemma_no_match(rest, mime_type, damaged);
        lemma_no_match(rest, mime_type, true);
    }
}

/// Searches the texts of helper descriptors, given in order of priority, for
/// a helper that supports the MIME type.
pub fn find_thumbnailer(mime_type: &str, descriptors: &Vec<String>) -> (found: Result<
    Option<ThumbnailerConfig>,
    ThumbnailError,
>)
    ensures
        found_view(found) == select_helper(strings_view(descriptors@), mime_type@, false),
{
    let ghost all = strings_view(descriptors@);
    let mut damaged = false;
    let mut i: usize = 0;
    assert(all.skip(0) == all);
    while i < descriptors.len()
        invariant
            i <= descriptors.len(),
            all == strings_view(descriptors@),
            select_helper(all, mime_type@, false) == select_helper(
                all.skip(i as int),
                mime_type@,
                damaged,
            ),
        decreases descriptors.len() - i,
    {
        assert(all.skip(i as int)[0] == descriptors@[i as int]@);
        assert(all.skip(i as int).drop_first() == all.skip(i + 1));
        match parse_thumbnailer(descriptors[i].as_str(), mime_type) {
            Ok(Some(c)) => {
                return Ok(Some(c));
            },
            Ok(None) => {},
            Err(_) => {
                damaged = true;
            },
        }
        i += 1;
    }
    if damaged {
        Err(ThumbnailError::BadConfig)
    } else {
        Ok(None)
    }
}

/// What a two-character code of a command template stands for: `%%` for a
/// percent sign, `%s` for the size in pixels, `%u` for the source's URI,
/// `%i` for the source's absolute path, `%o` for the output path. Any other
/// character after `%` stands for nothing.
pub open spec fn replacement(
    code: char,
    size: u32,
    uri: Seq<char>,
    input: Seq<char>,
    output: Seq<char>,
) -> Option<Seq<char>> {
    if code == '%' {
        Some(seq!['%'])
    } else if code == 's' {
        Some(decimal(size as nat))
    } else if code == 'u' {
        Some(uri)
    } else if code == 'i' {
        Some(input)
    } else if code == 'o' {
        Some(output)
    } else {
        None
    }
}

/// A word of a command template with its codes filled in, in one pass from
/// left to right. A `%` that starts no known code stays as it is.
pub open spec fn substituted(
    token: Seq<char>,
    size: u32,
    uri: Seq<char>,
    input: Seq<char>,
    output: Seq<char>,
) -> Seq<char>
    decreases token.len(),
{
    if token.len() == 0 {
        Seq::empty()
    } else if token[0] == '%' && token.len() >= 2 && replacement(
        token[1],
        size,
        uri,
        input,
        output,
    ) is Some {
        replacement(token[1], size, uri, input, output)->0 + substituted(
            token.skip(2),
            size,
            uri,
            input,
            output,
        )
    } else {
        seq![token[0]] + substituted(token.drop_first(), size, uri, input, output)
    }
}

/// Each word of a command with its codes filled in.
pub open spec fn substituted_all(
    tokens: Seq<Seq<char>>,
    size: u32,
    uri: Seq<char>,
    input: Seq<char>,
    output: Seq<char>,
) -> Seq<Seq<char>> {
    tokens.map_values(|t: Seq<char>| substituted(t, size, uri, input, output))
}

/// The argument vector for a command template, given what the shell-word
/// splitter makes of it: each word with its codes filled in, or a malformed
/// descriptor where the line cannot be split.
pub open spec fn command_args(
    words: Option<Seq<Seq<char>>>,
    size: u32,
    uri: Seq<char>,
    input: Seq<char>,
    output: Seq<char>,
) -> Result<Seq<Seq<char>>, ThumbnailError> {
    match words {
        Some(w) => Ok(substituted_all(w, size, uri, input, output)),
        None => Err(ThumbnailError::BadConfig),
    }
}

fn append(out: &mut Vec<char>, part: &Vec<char>)
    ensures
        final(out)@ == old(out)@ + part@,
{
    let ghost before = out@;
    let mut k: usize = 0;
    while k < part.len()
        invariant
            k <= part.len(),
            out@ == before + part@.take(k as int),
        decreases part.len() - k,
    {
        out.push(part[k]);
        assert(part@.take(k + 1) == part@.take(k as int).push(part@[k as int]));
        k += 1;
    }
    assert(part@.take(k as int) == part@);
}

/// Fills in the codes of one word of a command template.
pub fn substitute(token: &str, size: u32, uri: &str, input: &str, output: &str) -> (word: String)
    ensures
        word@ == substituted(token@, size, uri@, input@, output@),
{
    let t = chars_of(token);
    let size_chars = decimal_chars(size as u64);
    let uri_chars = chars_of(uri);
    let input_chars = chars_of(input);
    let output_chars = chars_of(output);
    let mut out: Vec<char> = Vec::new();
    let mut i: usize = 0;
    assert(t@.skip(0) == t@);
    while i < t.len()
        invariant
            i <= t.len(),
            t@ == token@,
            size_chars@ == decimal(size as nat),
            uri_chars@ == uri@,
            input_chars@ == input@,
            output_chars@ == output@,
            substituted(token@, size, uri@, input@, output@) == out@ + substituted(
                t@.skip(i as int),
                size,
                uri@,
                input@,
                output@,
            ),
        decreases t.len() - i,
    {
        let ghost rest = t@.skip(i as int);
        let ghost before = out@;
        assert(rest[0] == t@[i as int]);
        let c = t[i];
        let mut step: usize = 1;
        if c == '%' && i + 1 < t.len() {
            assert(rest[1] == t@[i + 1]);
            let code = t[i + 1];
            if code == '%' {
                out.push('%');
                step = 2;
            } else if code == 's' {
                append(&mut out, &size_chars);
                step = 2;
            } else if code == 'u' {
                append(&mut out, &uri_chars);
                step = 2;
            } else if code == 'i' {
                append(&mut out, &input_chars);
                step = 2;
            } else if code == 'o' {
                append(&mut out, &output_chars);
                step = 2;
            }
        }
        if step == 1 {
            out.push(c);
            assert(rest.drop_first() == t@.skip(i + 1));
            assert(out@ == before + seq![c]);
        } else {
            assert(rest.skip(2) == t@.skip(i + 2));
            assert(out@ == before + replacement(rest[1], size, uri@, input@, output@)->0);
        }
        i += step;
    }
    string_of(&out)
}

/// Fills in the codes of each word of a command.
pub fn substitute_tokens(tokens: &Vec<String>, size: u32, uri: &str, input: &str, output: &str) -> (args:
    Vec<String>)
    ensures
        strings_view(args@) == substituted_all(strings_view(tokens@), size, uri@, input@, output@),
{
    let mut args: Vec<String> = Vec::new();
    let mut i: usize = 0;
    while i < tokens.len()
        invariant
            i <= tokens.len(),
            args@.len() == i,
            forall|k: int|
                0 <= k < i ==> (#[trigger] args@[k])@ == substituted(
                    tokens@[k]@,
                    size,
                    uri@,
                    input@,
                    output@,
                ),
        decreases tokens.len() - i,
    {
        let word = substitute(tokens[i].as_str(), size, uri, input, output);
        args.push(word);
        i += 1;
    }
    assert(strings_view(args@) =~= substituted_all(
        strings_view(tokens@),
        size,
        uri@,
        input@,
        output@,
    ));
    args
}

/// Builds the argument vector of a helper from its command template: the
/// line is split into words as a shell would, then the codes of each word are
/// filled in. `input` is the source's absolute path and `output` the path
/// that the helper is to write.
pub fn build_command_args(exec_line: &str, size: u32, file_uri: &str, input: &str, output: &str) -> (args:
    Result<Vec<String>, ThumbnailError>)
    ensures
        match args {
            Ok(a) => command_args(shell_words(exec_line@), size, file_uri@, input@, output@) == Ok::<
                Seq<Seq<char>>,
                ThumbnailError,
            >(strings_view(a@)),
            Err(e) => command_args(shell_words(exec_line@), size, file_uri@, input@, output@)
                == Err::<Seq<Seq<char>>, ThumbnailError>(e),
        },
{
    match shell_split(exec_line) {
        Some(tokens) => Ok(substitute_tokens(&tokens, size, file_uri, input, output)),
        None => Err(ThumbnailError::BadConfig),
    }
}

/// What stands at one of the paths that a merged `/usr` replaces.
#[derive(Clone, Copy, Debug, PartialEq, Eq, Structural)]
pub enum PathKind {
    Missing,
    Symlink,
    Directory,
}

/// What the machine offers for sandboxing: where `bwrap` is, and what stands
/// at `/bin`, `/lib`, `/lib64` and `/sbin`.
#[derive(Debug)]
pub struct SandboxProbe {
    pub bwrap: String,
    pub bin: PathKind,
    pub lib: PathKind,
    pub lib64: PathKind,
    pub sbin: PathKind,
}

/// The mathematical value of a [`SandboxProbe`].
pub struct SandboxModel {
    pub bwrap: Seq<char>,
    pub bin: PathKind,
    pub lib: PathKind,
    pub lib64: PathKind,
    pub sbin: PathKind,
}

impl View for SandboxProbe {
    type V = SandboxModel;

    open spec fn view(&self) -> SandboxModel {
        SandboxModel {
            bwrap: self.bwrap@,
            bin: self.bin,
            lib: self.lib,
            lib64: self.lib64,
            sbin: self.sbin,
        }
    }
}

/// The sandbox arguments for one of `/bin`, `/lib`, `/lib64`, `/sbin`: a
/// symlink is made again inside the sandbox, pointing into `/usr`; a
/// directory is bound read-only; a missing path gets nothing.
pub open spec fn merged_dir_args(path: Seq<char>, kind: PathKind) -> Seq<Seq<char>> {
    match kind {
        PathKind::Missing => Seq::empty(),
        PathKind::Symlink => seq!["--symlink"@, "/usr"@ + path, path],
        PathKind::Directory => seq!["--ro-bind"@, path, path],
    }
}

/// The start of a sandboxed command: the sandbox program and the read-only
/// system mounts.
pub open spec fn sandbox_head(bwrap: Seq<char>) -> Seq<Seq<char>> {
    seq![
        bwrap,
        "--ro-bind"@,
        "/usr"@,
        "/usr"@,
        "--ro-bind-try"@,
        "/etc/ld.so.cache"@,
        "/etc/ld.so.cache"@,
        "--ro-bind-try"@,
        "/etc/alternatives"@,
        "/etc/alternatives"@,
    ]
}

/// The sandbox arguments that isolate the helper: its own process and
/// device trees, the root as working directory, local file access only, and
/// no shared namespaces.
pub open spec fn sandbox_isolation() -> Seq<Seq<char>> {
    seq![
        "--proc"@,
        "/proc"@,
        "--dev"@,
        "/dev"@,
        "--chdir"@,
        "/"@,
        "--setenv"@,
        "GIO_USE_VFS"@,
        "local"@,
        "--unshare-all"@,
        "--die-with-parent"@,
    ]
}

/// The sandbox arguments that let the helper write into the thumbnail
/// directory and read the source, followed by the end of options.
pub open spec fn sandbox_bindings(thumb_dir: Seq<char>, source: Seq<char>) -> Seq<Seq<char>> {
    seq!["--bind"@, thumb_dir, thumb_dir, "--ro-bind"@, source, source, "--"@]
}

/// The command that runs `argv` inside the sandbox.
pub open spec fn sandbox_argv(
    probe: SandboxModel,
    thumb_dir: Seq<char>,
    source: Seq<char>,
    argv: Seq<Seq<char>>,
) -> Seq<Seq<char>> {
    sandbox_head(probe.bwrap) + merged_dir_args("/bin"@, probe.bin) + merged_dir_args(
        "/lib"@,
        probe.lib,
    ) + merged_dir_args("/lib64"@, probe.lib64) + merged_dir_args("/sbin"@, probe.sbin)
        + sandbox_isolation() + sandbox_bindings(thumb_dir, source) + argv
}

/// The command to execute for a helper: inside the sandbox where there is
/// one, else `argv` itself.
pub open spec fn command_line(
    sandbox: Option<SandboxModel>,
    thumb_dir: Seq<char>,
    source: Seq<char>,
    argv: Seq<Seq<char>>,
) -> Seq<Seq<char>> {
    match sandbox {
        Some(probe) => sandbox_argv(probe, thumb_dir, source, argv),
        None => argv,
    }
}

/// A sandboxed command starts with the sandbox program and ends with the
/// end of options followed by the helper's own command, unchanged.
pub proof fn lemma_sandbox_keeps_command(
    probe: SandboxModel,
    thumb_dir: Seq<char>,
    source: Seq<char>,
    argv: Seq<Seq<char>>,
)
    ensures
        ({
            let command = sandbox_argv(probe, thumb_dir, source, argv);
            let own = command.len() - argv.len();
            &&& own >= 28
            &&& command[0] == probe.bwrap
            &&& command.skip(own) == argv
            &&& command[own - 1] == "--"@
            &&& command.subrange(own - 7, own) == sandbox_bindings(thumb_dir, source)
        }),
{
    let command = sandbox_argv(probe, thumb_dir, source, argv);
    let mounts = sandbox_head(probe.bwrap) + merged_dir_args("/bin"@, probe.bin) + merged_dir_args(
        "/lib"@,
        probe.lib,
    ) + merged_dir_args("/lib64"@, probe.lib64) + merged_dir_args("/sbin"@, probe.sbin)
        + sandbox_isolation();
    let own = mounts + sandbox_bindings(thumb_dir, source);
    assert(command == own + argv);
    assert(command.skip(own.len() as int) == argv);
    assert(command.subrange(own.len() - 7, own.len() as int) == sandbox_bindings(
        thumb_dir,
        source,
    ));
}

fn push_arg(args: &mut Vec<String>, arg: &str)
    ensures
        strings_view(final(args)@) == strings_view(old(args)@).push(arg@),
{
    args.push(arg.to_owned());
    assert(strings_view(args@) =~= strings_view(old(args)@).push(arg@));
}

fn push_merged_dir(args: &mut Vec<String>, path: &str, kind: PathKind)
    ensures
        strings_view(final(args)@) == strings_view(old(args)@) + merged_dir_args(path@, kind),
{
    match kind {
        PathKind::Missing => {},
        PathKind::Symlink => {
            let mut target: Vec<char> = Vec::new();
            push_chars(&mut target, "/usr");
            push_chars(&mut target, path);
            let target = string_of(&target);
            push_arg(args, "--symlink");
            push_arg(args, target.as_str());
            push_arg(args, path);
        },
        PathKind::Directory => {
            push_arg(args, "--ro-bind");
            push_arg(args, path);
            push_arg(args, path);
        },
    }
    assert(strings_view(args@) =~= strings_view(old(args)@) + merged_dir_args(path@, kind));
}

fn push_head(args: &mut Vec<String>, bwrap: &str)
    ensures
        strings_view(final(args)@) == strings_view(old(args)@) + sandbox_head(bwrap@),
{
    push_arg(args, bwrap);
    push_arg(args, "--ro-bind");
    push_arg(args, "/usr");
    push_arg(args, "/usr");
    push_arg(args, "--ro-bind-try");
    push_arg(args, "/etc/ld.so.cache");
    push_arg(args, "/etc/ld.so.cache");
    push_arg(args, "--ro-bind-try");
    push_arg(args, "/etc/alternatives");
    push_arg(args, "/etc/alternatives");
    assert(strings_view(args@) =~= strings_view(old(args)@) + sandbox_head(bwrap@));
}

fn push_isolation(args: &mut Vec<String>)
    ensures
        strings_view(final(args)@) == strings_view(old(args)@) + sandbox_isolation(),
{
    push_arg(args, "--proc");
    push_arg(args, "/proc");
    push_arg(args, "--dev");
    push_arg(args, "/dev");
    push_arg(args, "--chdir");
    push_arg(args, "/");
    push_arg(args, "--setenv");
    push_arg(args, "GIO_USE_VFS");
    push_arg(args, "local");
    push_arg(args, "--unshare-all");
    push_arg(args, "--die-with-parent");
    assert(strings_view(args@) =~= strings_view(old(args)@) + sandbox_isolation());
}

fn push_bindings(args: &mut Vec<String>, thumb_dir: &str, source: &str)
    ensures
        strings_view(final(args)@) == strings_view(old(args)@) + sandbox_bindings(
            thumb_dir@,
            source@,
        ),
{
    push_arg(args, "--bind");
    push_arg(args, thumb_dir);
    push_arg(args, thumb_dir);
    push_arg(args, "--ro-bind");
    push_arg(args, source);
    push_arg(args, source);
    push_arg(args, "--");
    assert(strings_view(args@) =~= strings_view(old(args)@) + sandbox_bindings(
        thumb_dir@,
        source@,
    ));
}

/// Builds the command that runs `argv` inside the sandbox, with the
/// thumbnail directory writable and the source readable.
pub fn sandbox_command(probe: &SandboxProbe, thumb_dir: &str, source: &str, argv: &Vec<String>) -> (command:
    Vec<String>)
    ensures
        strings_view(command@) == sandbox_argv(probe@, thumb_dir@, source@, strings_view(argv@)),
{
    let mut args: Vec<String> = Vec::new();
    assert(strings_view(args@) =~= Seq::<Seq<char>>::empty());
    push_head(&mut args, probe.bwrap.as_str());
    assert(strings_view(args@) =~= sandbox_head(probe@.bwrap));
    push_merged_dir(&mut args, "/bin", probe.bin);
    push_merged_dir(&mut args, "/lib", probe.lib);
    push_merged_dir(&mut args, "/lib64", probe.lib64);
    push_merged_dir(&mut args, "/sbin", probe.sbin);
    push_isolation(&mut args);
    push_bindings(&mut args, thumb_dir, source);
    let ghost own = strings_view(args@);
    let mut i: usize = 0;
    assert(strings_view(argv@).take(0) =~= Seq::<Seq<char>>::empty());
    while i < argv.len()
        invariant
            i <= argv.len(),
            strings_view(args@) == own + strings_view(argv@).take(i as int),
        decreases argv.len() - i,
    {
        push_arg(&mut args, argv[i].as_str());
        assert(strings_view(argv@).take(i + 1) == strings_view(argv@).take(i as int).push(
            argv@[i as int]@,
        ));
        i += 1;
    }
    assert(strings_view(argv@).take(i as int) == strings_view(argv@));
    args
}

/// Builds the command to execute for a helper: inside the sandbox where
/// there is one, else the helper's own argument vector.
pub fn helper_command(
    sandbox: Option<&SandboxProbe>,
    thumb_dir: &str,
    source: &str,
    argv: Vec<String>,
) -> (command: Vec<String>)
    ensures
        strings_view(command@) == command_line(
            match sandbox {
                Some(p) => Some(p@),
                None => None,
            },
            thumb_dir@,
            source@,
            strings_view(argv@),
        ),
{
    match sandbox {
        Some(probe) => sandbox_command(probe, thumb_dir, source, &argv),
        None => argv,
    }
}

} // verus!
