//! Session descriptor files: key/value documents with a `Desktop Entry`
//! section. The document syntax is the `ini` crate's; what the entry means for
//! the catalog is decided here.
use crate::ipc::sessions::{Session, SessionType, SessionView};
use crate::text::{
    base_name, base_of, chars_of, find_last, last_index, lemma_last_index, str_eq,
};
use vstd::prelude::*;

verus! {

/// `ini::Ini`, a parsed document. Nothing is known of it but what
/// `ini_sections` names.
#[verifier::external_type_specification]
#[verifier::external_body]
pub struct ExIni(ini::Ini);

/// `ini::Properties`, a section of a document. Nothing is known of it but
/// what `ini_properties` names.
#[verifier::external_type_specification]
#[verifier::external_body]
pub struct ExProperties(ini::Properties);

/// `ini::ParseError`, why a text is no document. It is passed over unread.
#[verifier::external_type_specification]
#[verifier::external_body]
pub struct ExParseError(ini::ParseError);

/// What `ini::Ini::load_from_str` makes of a text: nothing where it reports a
/// parse error, else the named sections of the document, as `ini_sections`
/// gives them.
pub uninterp spec fn ini_parsed(text: Seq<char>) -> Option<Map<Seq<char>, Map<Seq<char>, Seq<char>>>>;

/// The named sections of a document: under each name that a section of the
/// document bears, the properties of the first section of that name, as
/// `ini_properties` gives them.
pub uninterp spec fn ini_sections(doc: ini::Ini) -> Map<Seq<char>, Map<Seq<char>, Seq<char>>>;

/// The properties of a section: under each key that occurs in it, the first
/// value given for that key.
pub uninterp spec fn ini_properties(props: ini::Properties) -> Map<Seq<char>, Seq<char>>;

/// `ini::Ini::load_from_str`. Believed: its outcome depends on the text
/// alone, and a document it returns has the sections that `ini_parsed` names
/// for the text.
#[verifier::external_body]
fn parse_document(text: &str) -> (r: Result<ini::Ini, ini::ParseError>)
    ensures
        match r {
            Ok(doc) => ini_parsed(text@) == Some(ini_sections(doc)),
            Err(_) => ini_parsed(text@) is None,
        },
{
    ini::Ini::load_from_str(text)
}

/// `ini::Ini::section` with a section name. Believed: it returns the first
/// section of that name, and none exactly where the document has no section
/// of that name.
#[verifier::external_body]
fn find_section<'a>(doc: &'a ini::Ini, name: &str) -> (r: Option<&'a ini::Properties>)
    ensures
        match r {
            Some(props) => ini_sections(*doc).contains_key(name@) && ini_sections(*doc)[name@]
                == ini_properties(*props),
            None => !ini_sections(*doc).contains_key(name@),
        },
{
    doc.section(Some(name))
}

/// `ini::Properties::get`. Believed: it returns the first value stored under
/// the key, and none exactly where the key does not occur.
#[verifier::external_body]
fn find_property<'a>(props: &'a ini::Properties, key: &str) -> (r: Option<&'a str>)
    ensures
        match r {
            Some(value) => ini_properties(*props).contains_key(key@) && ini_properties(
                *props,
            )[key@] == value@,
            None => !ini_properties(*props).contains_key(key@),
        },
{
    props.get(key)
}

/// Why a descriptor file yields no session.
#[derive(Debug, Clone, Copy, PartialEq, Eq)]
pub enum DesktopFileError {
    /// The text is no key/value document.
    Syntax,
    /// The document has no `Desktop Entry` section.
    NoDesktopEntry,
    /// The entry has no `Name`.
    NoName,
    /// The entry has no `Exec`.
    NoExec,
}

/// The keys of a `Desktop Entry` section that the catalog reads, each with
/// its value where the section has the key.
#[derive(Debug, PartialEq, Eq)]
pub struct DesktopEntry {
    pub name: Option<String>,
    pub command: Option<String>,
    pub hidden: Option<String>,
    pub no_display: Option<String>,
    pub desktop_names: Option<String>,
}

/// What a [`DesktopEntry`] holds, as texts.
pub struct DesktopEntryView {
    pub name: Option<Seq<char>>,
    pub command: Option<Seq<char>>,
    pub hidden: Option<Seq<char>>,
    pub no_display: Option<Seq<char>>,
    pub desktop_names: Option<Seq<char>>,
}

impl View for DesktopEntry {
    type V = DesktopEntryView;

    open spec fn view(&self) -> DesktopEntryView {
        DesktopEntryView {
            name: self.name.deep_view(),
            command: self.command.deep_view(),
            hidden: self.hidden.deep_view(),
            no_display: self.no_display.deep_view(),
            desktop_names: self.desktop_names.deep_view(),
        }
    }
}

/// The value under `key`, where the properties have the key.
pub open spec fn property(props: Map<Seq<char>, Seq<char>>, key: Seq<char>) -> Option<Seq<char>> {
    if props.contains_key(key) {
        Some(props[key])
    } else {
        None
    }
}

/// The entry that a `Desktop Entry` section with these properties declares.
pub open spec fn entry_of(props: Map<Seq<char>, Seq<char>>) -> DesktopEntryView {
    DesktopEntryView {
        name: property(props, "Name"@),
        command: property(props, "Exec"@),
        hidden: property(props, "Hidden"@),
        no_display: property(props, "NoDisplay"@),
        desktop_names: property(props, "DesktopNames"@),
    }
}

/// The text without the byte-order mark that may open a file.
pub open spec fn without_mark(text: Seq<char>) -> Seq<char> {
    if text.len() > 0 && text[0] == '\u{feff}' {
        text.drop_first()
    } else {
        text
    }
}

/// The entry that the text of a descriptor file declares: that of its
/// `Desktop Entry` section, once a leading byte-order mark is set aside.
pub open spec fn desktop_entry(text: Seq<char>) -> Result<DesktopEntryView, DesktopFileError> {
    match ini_parsed(without_mark(text)) {
        None => Err(DesktopFileError::Syntax),
        Some(sections) => if sections.contains_key("Desktop Entry"@) {
            Ok(entry_of(sections["Desktop Entry"@]))
        } else {
            Err(DesktopFileError::NoDesktopEntry)
        },
    }
}

/// A copy of the value under `key`, where the section has the key.
fn read_property(props: &ini::Properties, key: &str) -> (r: Option<String>)
    ensures
        r.deep_view() == property(ini_properties(*props), key@),
{
    match find_property(props, key) {
        Some(value) => Some(value.to_owned()),
        None => None,
    }
}

/// Reads the `Desktop Entry` section of a descriptor file's text.
pub fn read_desktop_entry(text: &str) -> (r: Result<DesktopEntry, DesktopFileError>)
    ensures
        match r {
            Ok(entry) => desktop_entry(text@) == Ok::<DesktopEntryView, DesktopFileError>(entry@),
            Err(e) => desktop_entry(text@) == Err::<DesktopEntryView, DesktopFileError>(e),
        },
{
    let n = text.unicode_len();
    let body = if n > 0 && text.get_char(0) == '\u{feff}' {
        text.substring_char(1, n)
    } else {
        text
    };
    assert(body@ =~= without_mark(text@));
    match parse_document(body) {
        Err(_) => Err(DesktopFileError::Syntax),
        Ok(doc) => match find_section(&doc, "Desktop Entry") {
            None => Err(DesktopFileError::NoDesktopEntry),
            Some(props) => Ok(
                DesktopEntry {
                    name: read_property(props, "Name"),
                    command: read_property(props, "Exec"),
                    hidden: read_property(props, "Hidden"),
                    no_display: read_property(props, "NoDisplay"),
                    desktop_names: read_property(props, "DesktopNames"),
                },
            ),
        },
    }
}

/// Whether an entry is kept out of the catalog: its `Hidden` or its
/// `NoDisplay` is the word `true`.
pub open spec fn is_excluded(entry: DesktopEntryView) -> bool {
    entry.hidden == Some("true"@) || entry.no_display == Some("true"@)
}

/// The session that an entry declares. An excluded entry declares none, and
/// that is no error; any other entry must name the session and the command
/// that starts it.
pub open spec fn entry_session(
    entry: DesktopEntryView,
    slug: Option<Seq<char>>,
    session_type: SessionType,
) -> Result<Option<SessionView>, DesktopFileError> {
    if is_excluded(entry) {
        Ok(None)
    } else if entry.name is None {
        Err(DesktopFileError::NoName)
    } else if entry.command is None {
        Err(DesktopFileError::NoExec)
    } else {
        Ok(
            Some(
                SessionView {
                    slug,
                    name: entry.name->0,
                    command: entry.command->0,
                    session_type,
                    xdg_desktop_names: entry.desktop_names,
                },
            ),
        )
    }
}

/// What a loaded descriptor is, as texts.
pub open spec fn loaded_view(r: Result<Option<Session>, DesktopFileError>) -> Result<
    Option<SessionView>,
    DesktopFileError,
> {
    match r {
        Ok(Some(session)) => Ok(Some(session@)),
        Ok(None) => Ok(None),
        Err(e) => Err(e),
    }
}

/// Whether an optional value is the word `true`.
fn is_true(value: &Option<String>) -> (r: bool)
    ensures
        r == (value.deep_view() == Some("true"@)),
{
    match value {
        Some(v) => str_eq(v.as_str(), "true"),
        None => false,
    }
}

/// The session that `entry` declares, of the given slug and kind.
pub fn session_from_entry(
    entry: DesktopEntry,
    slug: Option<String>,
    session_type: SessionType,
) -> (r: Result<Option<Session>, DesktopFileError>)
    ensures
        loaded_view(r) == entry_session(entry@, slug.deep_view(), session_type),
{
    if is_true(&entry.hidden) || is_true(&entry.no_display) {
        return Ok(None);
    }
    let name = match entry.name {
        Some(name) => name,
        None => {
            return Err(DesktopFileError::NoName);
        },
    };
    let command = match entry.command {
        Some(command) => command,
        None => {
            return Err(DesktopFileError::NoExec);
        },
    };
    Ok(Some(Session { slug, name, command, session_type, xdg_desktop_names: entry.desktop_names }))
}

/// A file name without its extension: what precedes its last `.`, or the
/// whole name where it has none or only begins with one.
pub open spec fn file_stem(name: Seq<char>) -> Seq<char> {
    let dot = last_index(name, '.');
    if dot <= 0 {
        name
    } else {
        name.take(dot)
    }
}

/// The slug of the descriptor file at `path`: the stem of its base name.
/// A path that names no file (it ends in `/`, `.` or `..`, or is empty) has
/// none.
pub open spec fn slug_of(path: Seq<char>) -> Option<Seq<char>> {
    let base = base_name(path);
    if base.len() == 0 || base == seq!['.'] || base == seq!['.', '.'] {
        None
    } else {
        Some(file_stem(base))
    }
}

/// The slug of the descriptor file at `path`.
pub fn slug_from_path(path: &str) -> (r: Option<String>)
    ensures
        r.deep_view() == slug_of(path@),
{
    let base = base_of(path);
    let name = chars_of(base);
    if name.len() == 0 {
        return None;
    }
    if name.len() == 1 && name[0] == '.' {
        assert(name@ =~= seq!['.']);
        return None;
    }
    if name.len() == 2 && name[0] == '.' && name[1] == '.' {
        assert(name@ =~= seq!['.', '.']);
        return None;
    }
    assert(base@ != seq!['.'] && base@ != seq!['.', '.']) by {
        if base@ == seq!['.'] {
            assert(seq!['.'].len() == 1);
            assert(seq!['.'][0] == '.');
        }
        if base@ == seq!['.', '.'] {
            assert(seq!['.', '.'].len() == 2);
            assert(seq!['.', '.'][0] == '.');
            assert(seq!['.', '.'][1] == '.');
        }
    }
    proof {
        lemma_last_index(base@, '.');
    }
    match find_last(&name, '.') {
        Some(dot) => {
            if dot > 0 {
                let stem = base.substring_char(0, dot);
                assert(stem@ =~= file_stem(base@));
                Some(stem.to_owned())
            } else {
                Some(base.to_owned())
            }
        },
        None => Some(base.to_owned()),
    }
}

/// The session that the descriptor file at `path` with this text declares.
pub open spec fn file_session(path: Seq<char>, text: Seq<char>, session_type: SessionType) -> Result<
    Option<SessionView>,
    DesktopFileError,
> {
    match desktop_entry(text) {
        Err(e) => Err(e),
        Ok(entry) => entry_session(entry, slug_of(path), session_type),
    }
}

/// Loads the descriptor file at `path`, whose text is `text`, as a session of
/// the given kind.
pub fn load_desktop_file(path: &str, text: &str, session_type: SessionType) -> (r: Result<
    Option<Session>,
    DesktopFileError,
>)
    ensures
        loaded_view(r) == file_session(path@, text@, session_type),
{
    match read_desktop_entry(text) {
        Err(e) => Err(e),
        Ok(entry) => session_from_entry(entry, slug_from_path(path), session_type),
    }
}

} // verus!
