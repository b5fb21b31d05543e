//! Desktop sessions: what a session is, the environment it is started with,
//! and how one is chosen from the catalog.
use crate::ipc::desktop_file::{file_session, load_desktop_file};
use crate::text::{
    clone_text, join_dir, join_path, lemma_text_le_transitive, split_str, split_text, str_eq,
    str_lt, text_le, text_lt,
};
use vstd::prelude::*;

verus! {

/// The display server a session runs on.
#[derive(Debug, Clone, Copy, PartialEq, Eq)]
pub enum SessionType {
    Wayland,
    X11,
}

impl View for SessionType {
    type V = SessionType;

    open spec fn view(&self) -> SessionType {
        *self
    }
}

impl DeepView for SessionType {
    type V = SessionType;

    open spec fn deep_view(&self) -> SessionType {
        *self
    }
}

/// A desktop session a user may start.
#[derive(Debug, PartialEq, Eq)]
pub struct Session {
    /// Base name of the descriptor file without its extension.
    pub slug: Option<String>,
    /// Name shown to the user; the catalog is ordered by it.
    pub name: String,
    /// Command line that starts the session.
    pub command: String,
    pub session_type: SessionType,
    /// Desktop names the session declares, as written in its descriptor.
    pub xdg_desktop_names: Option<String>,
}

/// What a [`Session`] holds, as texts.
pub struct SessionView {
    pub slug: Option<Seq<char>>,
    pub name: Seq<char>,
    pub command: Seq<char>,
    pub session_type: SessionType,
    pub xdg_desktop_names: Option<Seq<char>>,
}

impl View for Session {
    type V = SessionView;

    open spec fn view(&self) -> SessionView {
        SessionView {
            slug: self.slug.deep_view(),
            name: self.name@,
            command: self.command@,
            session_type: self.session_type,
            xdg_desktop_names: self.xdg_desktop_names.deep_view(),
        }
    }
}

impl DeepView for Session {
    type V = SessionView;

    open spec fn deep_view(&self) -> SessionView {
        self@
    }
}

impl Clone for Session {
    fn clone(&self) -> (r: Session)
        ensures
            r@ == self@,
    {
        Session {
            slug: clone_text(&self.slug),
            name: self.name.clone(),
            command: self.command.clone(),
            session_type: self.session_type,
            xdg_desktop_names: clone_text(&self.xdg_desktop_names),
        }
    }
}

/// The environment a session is started with: the desktop it names itself
/// by, if its descriptor had a base name; the display server it runs on; the
/// desktop names it declares, if any. In this order.
pub open spec fn session_env(s: SessionView) -> Seq<Seq<char>> {
    let desktop = match s.slug {
        Some(slug) => seq!["XDG_SESSION_DESKTOP="@ + slug, "DESKTOP_SESSION="@ + slug],
        None => seq![],
    };
    let display = match s.session_type {
        SessionType::Wayland => "XDG_SESSION_TYPE=wayland"@,
        SessionType::X11 => "XDG_SESSION_TYPE=x11"@,
    };
    let names = match s.xdg_desktop_names {
        Some(names) => seq!["XDG_CURRENT_DESKTOP="@ + names],
        None => seq![],
    };
    desktop + seq![display] + names
}

impl Session {
    /// The command that starts this session and the environment to start it
    /// with.
    pub fn get_session_command(&self) -> (r: (String, Vec<String>))
        ensures
            r.0@ == self@.command,
            r.1.deep_view() == session_env(self@),
    {
        let mut env: Vec<String> = Vec::new();
        match &self.slug {
            Some(slug) => {
                env.push(String::from_str("XDG_SESSION_DESKTOP=").concat(slug.as_str()));
                env.push(String::from_str("DESKTOP_SESSION=").concat(slug.as_str()));
            },
            None => {},
        }
        match self.session_type {
            SessionType::Wayland => {
                env.push(String::from_str("XDG_SESSION_TYPE=wayland"));
            },
            SessionType::X11 => {
                env.push(String::from_str("XDG_SESSION_TYPE=x11"));
            },
        }
        match &self.xdg_desktop_names {
            Some(names) => {
                env.push(String::from_str("XDG_CURRENT_DESKTOP=").concat(names.as_str()));
            },
            None => {},
        }
        assert(env.deep_view() =~= session_env(self@));
        (self.command.clone(), env)
    }
}

/// Where session descriptors are looked for when no search path is given.
pub open spec fn default_data_dirs() -> Seq<char> {
    "/usr/local/share:/usr/share"@
}

/// The directories to scan for the data directories `dirs`: for each of
/// them, in order, its `wayland-sessions` and then its `xsessions`.
pub open spec fn session_dirs(dirs: Seq<Seq<char>>) -> Seq<(Seq<char>, SessionType)> {
    Seq::new(
        2 * dirs.len(),
        |i: int|
            if i % 2 == 0 {
                (join_path(dirs[i / 2], "wayland-sessions"@), SessionType::Wayland)
            } else {
                (join_path(dirs[i / 2], "xsessions"@), SessionType::X11)
            },
    )
}

/// The directories to scan for a search path: a list of data directories
/// with `:` between them, or the default list where none is given.
pub open spec fn session_paths(data_dirs: Option<Seq<char>>) -> Seq<(Seq<char>, SessionType)> {
    let list = match data_dirs {
        Some(dirs) => dirs,
        None => default_data_dirs(),
    };
    session_dirs(split_text(list, ':'))
}

/// The directories that hold session descriptors, each with the kind of
/// session found in it, for the search path `data_dirs`.
pub fn build_session_paths(data_dirs: Option<&str>) -> (r: Vec<(String, SessionType)>)
    ensures
        r.deep_view() == session_paths(data_dirs.deep_view()),
{
    let dirs = match data_dirs {
        Some(list) => split_str(list, ':'),
        None => split_str("/usr/local/share:/usr/share", ':'),
    };
    let mut paths: Vec<(String, SessionType)> = Vec::new();
    let mut k: usize = 0;
    assert(paths.deep_view() =~= session_dirs(dirs.deep_view().take(0)));
    while k < dirs.len()
        invariant
            k <= dirs.len(),
            paths.deep_view() == session_dirs(dirs.deep_view().take(k as int)),
        decreases dirs.len() - k,
    {
        let ghost before = paths.deep_view();
        paths.push((join_dir(dirs[k].as_str(), "wayland-sessions"), SessionType::Wayland));
        paths.push((join_dir(dirs[k].as_str(), "xsessions"), SessionType::X11));
        proof {
            let grown = session_dirs(dirs.deep_view().take(k + 1));
            assert(dirs.deep_view().take(k as int).len() == k);
            assert(dirs.deep_view().take(k + 1).len() == k + 1);
            assert(before.len() == 2 * k);
            assert(paths@.len() == before.len() + 2);
            assert(paths.deep_view().len() == grown.len());
            assert forall|i: int| 0 <= i < grown.len() implies paths.deep_view()[i] == grown[i] by {
                if i < 2 * k {
                    assert(paths.deep_view()[i] == before[i]);
                    assert(dirs.deep_view().take(k as int)[i / 2] == dirs.deep_view().take(
                        k + 1,
                    )[i / 2]);
                }
            }
            assert(paths.deep_view() =~= grown);
        }
        k = k + 1;
    }
    assert(dirs.deep_view().take(k as int) =~= dirs.deep_view());
    paths
}

/// A descriptor file as a scan of the session directories found it.
#[derive(Debug, PartialEq, Eq)]
pub struct SessionFile {
    /// Where the file is.
    pub path: String,
    /// What the file holds.
    pub contents: String,
    /// The kind of session that its directory holds.
    pub session_type: SessionType,
}

/// What a [`SessionFile`] holds, as texts.
pub struct SessionFileView {
    pub path: Seq<char>,
    pub contents: Seq<char>,
    pub session_type: SessionType,
}

impl View for SessionFile {
    type V = SessionFileView;

    open spec fn view(&self) -> SessionFileView {
        SessionFileView {
            path: self.path@,
            contents: self.contents@,
            session_type: self.session_type,
        }
    }
}

impl DeepView for SessionFile {
    type V = SessionFileView;

    open spec fn deep_view(&self) -> SessionFileView {
        self@
    }
}

/// The session that a scanned file adds to the catalog: the one it declares,
/// or none where it declares none or cannot be loaded.
pub open spec fn declared(file: SessionFileView) -> Option<SessionView> {
    match file_session(file.path, file.contents, file.session_type) {
        Ok(Some(session)) => Some(session),
        _ => None,
    }
}

/// The sessions that the scanned files declare, in scan order.
pub open spec fn listed(files: Seq<SessionFileView>) -> Seq<SessionView> {
    files.filter_map(|file: SessionFileView| declared(file))
}

/// `sorted` with `session` put behind its last entry whose name does not
/// come after that of `session`.
pub open spec fn insert_by_name(sorted: Seq<SessionView>, session: SessionView) -> Seq<SessionView>
    decreases sorted.len(),
{
    if sorted.len() == 0 || text_le(sorted.last().name, session.name) {
        sorted.push(session)
    } else {
        insert_by_name(sorted.drop_last(), session).push(sorted.last())
    }
}

/// The sessions of `list` in ascending order of their names, those of one
/// name in the order they have in `list`.
pub open spec fn sort_by_name(list: Seq<SessionView>) -> Seq<SessionView>
    decreases list.len(),
{
    if list.len() == 0 {
        list
    } else {
        insert_by_name(sort_by_name(list.drop_last()), list.last())
    }
}

/// The catalog that a scan yields: the sessions its files declare, ordered by
/// name.
pub open spec fn catalog(files: Seq<SessionFileView>) -> Seq<SessionView> {
    sort_by_name(listed(files))
}

/// Whether the names of `list` ascend.
pub open spec fn names_ascend(list: Seq<SessionView>) -> bool {
    forall|i: int, j: int| 0 <= i < j < list.len() ==> text_le(list[i].name, list[j].name)
}

/// The entries of `list` that bear `name`, in their order.
pub open spec fn named(list: Seq<SessionView>, name: Seq<char>) -> Seq<SessionView> {
    list.filter(|s: SessionView| s.name == name)
}

/// Inserting at position `at` is what `insert_by_name` does, where every
/// entry from `at` on comes after the new one and the entry before `at`, if
/// any, does not.
proof fn lemma_insert_position(sorted: Seq<SessionView>, session: SessionView, at: int)
    requires
        0 <= at <= sorted.len(),
        forall|j: int| at <= j < sorted.len() ==> text_lt(session.name, sorted[j].name),
        at > 0 ==> !text_lt(session.name, sorted[at - 1].name),
    ensures
        insert_by_name(sorted, session) == sorted.insert(at, session),
    decreases sorted.len() - at,
{
    if at == sorted.len() {
        assert(sorted.push(session) =~= sorted.insert(at, session));
    } else {
        lemma_insert_position(sorted.drop_last(), session, at);
        assert(sorted.drop_last().insert(at, session).push(sorted.last()) =~= sorted.insert(
            at,
            session,
        ));
    }
}

/// Puts `session` into `sorted` behind the last entry whose name does not
/// come after its own.
fn insert_session(sorted: &mut Vec<Session>, session: Session)
    ensures
        final(sorted).deep_view() == insert_by_name(old(sorted).deep_view(), session@),
{
    let mut at: usize = sorted.len();
    while at > 0 && str_lt(session.name.as_str(), sorted[at - 1].name.as_str())
        invariant
            at <= sorted.len(),
            *sorted == *old(sorted),
            forall|j: int|
                at <= j < sorted.len() ==> text_lt(session@.name, #[trigger] sorted.deep_view()[j].name),
        decreases at,
    {
        at = at - 1;
    }
    proof {
        lemma_insert_position(sorted.deep_view(), session@, at as int);
    }
    let ghost before = sorted.deep_view();
    let ghost added = session@;
    sorted.insert(at, session);
    assert(sorted.deep_view() =~= before.insert(at as int, added));
}

/// The catalog of sessions for the files that a scan of the session
/// directories found: those that declare a session, in ascending order of
/// their names, those of one name in the order of the scan. A file that
/// cannot be loaded is passed over.
pub fn get_sessions(files: &Vec<SessionFile>) -> (r: Vec<Session>)
    ensures
        r.deep_view() == catalog(files.deep_view()),
        names_ascend(r.deep_view()),
        forall|name: Seq<char>| #[trigger]
            named(r.deep_view(), name) == named(listed(files.deep_view()), name),
{
    let mut sorted: Vec<Session> = Vec::new();
    let mut k: usize = 0;
    assert(files.deep_view().take(0) =~= Seq::<SessionFileView>::empty());
    assert(sorted.deep_view() =~= catalog(files.deep_view().take(0)));
    while k < files.len()
        invariant
            k <= files.len(),
            sorted.deep_view() == catalog(files.deep_view().take(k as int)),
        decreases files.len() - k,
    {
        let file = &files[k];
        let loaded = load_desktop_file(file.path.as_str(), file.contents.as_str(), file.session_type);
        proof {
            let seen = files.deep_view().take(k + 1);
            assert(seen.drop_last() =~= files.deep_view().take(k as int));
            assert(seen.last() == file@);
        }
        match loaded {
            Ok(Some(session)) => {
                proof {
                    let now = listed(files.deep_view().take(k + 1));
                    let was = listed(files.deep_view().take(k as int));
                    assert(now == was + seq![session@]);
                    assert(now.drop_last() =~= was);
                }
                insert_session(&mut sorted, session);
            },
            _ => {},
        }
        k = k + 1;
    }
    assert(files.deep_view().take(k as int) =~= files.deep_view());
    proof {
        lemma_sort_ascends(listed(files.deep_view()));
        assert forall|name: Seq<char>| #[trigger]
            named(sorted.deep_view(), name) == named(listed(files.deep_view()), name) by {
            lemma_sort_is_stable(listed(files.deep_view()), name);
        }
    }
    sorted
}

/// Where `insert_by_name` puts a session: behind the last entry whose name
/// does not come after its own.
pub open spec fn insert_place(sorted: Seq<SessionView>, session: SessionView) -> int
    decreases sorted.len(),
{
    if sorted.len() == 0 || text_le(sorted.last().name, session.name) {
        sorted.len() as int
    } else {
        insert_place(sorted.drop_last(), session)
    }
}

/// `insert_by_name` inserts at `insert_place`; every entry from there on
/// comes after the new session, and the entry before it, if any, does not.
pub proof fn lemma_insert_place(sorted: Seq<SessionView>, session: SessionView)
    ensures
        0 <= insert_place(sorted, session) <= sorted.len(),
        forall|j: int|
            insert_place(sorted, session) <= j < sorted.len() ==> text_lt(
                session.name,
                sorted[j].name,
            ),
        insert_place(sorted, session) > 0 ==> text_le(
            sorted[insert_place(sorted, session) - 1].name,
            session.name,
        ),
        insert_by_name(sorted, session) == sorted.insert(insert_place(sorted, session), session),
    decreases sorted.len(),
{
    if !(sorted.len() == 0 || text_le(sorted.last().name, session.name)) {
        lemma_insert_place(sorted.drop_last(), session);
        assert forall|j: int| insert_place(sorted, session) <= j < sorted.len() implies text_lt(
            session.name,
            sorted[j].name,
        ) by {
            if j < sorted.len() - 1 {
                assert(sorted.drop_last()[j] == sorted[j]);
            }
        }
        let at = insert_place(sorted, session);
        if at > 0 {
            assert(sorted.drop_last()[at - 1] == sorted[at - 1]);
        }
    }
    lemma_insert_position(sorted, session, insert_place(sorted, session));
}

/// Inserting by name keeps ascending names ascending.
pub proof fn lemma_insert_keeps_ascent(sorted: Seq<SessionView>, session: SessionView)
    requires
        names_ascend(sorted),
    ensures
        names_ascend(insert_by_name(sorted, session)),
{
    lemma_insert_place(sorted, session);
    let at = insert_place(sorted, session);
    let grown = sorted.insert(at, session);
    assert forall|i: int, j: int| 0 <= i < j < grown.len() implies text_le(
        grown[i].name,
        grown[j].name,
    ) by {
        if j == at {
            if i < at - 1 {
                lemma_text_le_transitive(sorted[i].name, sorted[at - 1].name, session.name);
            }
        } else if i == at {
            crate::text::lemma_text_lt_asymmetric(session.name, sorted[j - 1].name);
        } else if i < at && j > at {
            assert(grown[i] == sorted[i] && grown[j] == sorted[j - 1]);
        } else if i < at {
            assert(grown[i] == sorted[i] && grown[j] == sorted[j]);
        } else {
            assert(grown[i] == sorted[i - 1] && grown[j] == sorted[j - 1]);
        }
    }
}

/// Order: the names of a sorted list ascend.
pub proof fn lemma_sort_ascends(list: Seq<SessionView>)
    ensures
        names_ascend(sort_by_name(list)),
    decreases list.len(),
{
    if list.len() > 0 {
        lemma_sort_ascends(list.drop_last());
        lemma_insert_keeps_ascent(sort_by_name(list.drop_last()), list.last());
    }
}

/// Nothing lost, nothing added: a sorted list holds each session as often as
/// the list it was sorted from.
pub proof fn lemma_sort_permutes(list: Seq<SessionView>)
    ensures
        sort_by_name(list).to_multiset() == list.to_multiset(),
        sort_by_name(list).len() == list.len(),
    decreases list.len(),
{
    broadcast use vstd::seq_lib::to_multiset_len;

    if list.len() > 0 {
        let init = list.drop_last();
        lemma_sort_permutes(init);
        lemma_insert_place(sort_by_name(init), list.last());
        vstd::seq_lib::to_multiset_insert(
            sort_by_name(init),
            insert_place(sort_by_name(init), list.last()),
            list.last(),
        );
        vstd::seq_lib::to_multiset_build(init, list.last());
        assert(init.push(list.last()) =~= list);
    }
}

/// Stability: the sessions of one name keep, in a sorted list, the order they
/// had in the list it was sorted from.
pub proof fn lemma_sort_is_stable(list: Seq<SessionView>, name: Seq<char>)
    ensures
        named(sort_by_name(list), name) == named(list, name),
    decreases list.len(),
{
    if list.len() > 0 {
        let init = list.drop_last();
        let last = list.last();
        let sorted = sort_by_name(init);
        let pred = |s: SessionView| s.name == name;
        lemma_sort_is_stable(init, name);
        lemma_insert_place(sorted, last);
        let at = insert_place(sorted, last);
        let head = sorted.take(at);
        let tail = sorted.skip(at);
        assert(sorted =~= head + tail);
        assert(sorted.insert(at, last) =~= head.push(last) + tail);
        Seq::filter_distributes_over_add(head, tail, pred);
        Seq::filter_distributes_over_add(head.push(last), tail, pred);
        head.lemma_filter_push(last, pred);
        init.lemma_filter_push(last, pred);
        assert(init.push(last) =~= list);
        if last.name == name {
            assert forall|i: int| 0 <= i < tail.len() implies !pred(tail[i]) by {
                assert(tail[i] == sorted[at + i]);
                crate::text::lemma_text_lt_irreflexive(name);
            }
            tail.lemma_all_neg_filter_empty(pred);
            assert(tail.filter(pred) =~= Seq::<SessionView>::empty());
            assert(head.filter(pred) + tail.filter(pred) =~= head.filter(pred));
            assert(head.filter(pred).push(last) + tail.filter(pred) =~= head.filter(pred).push(
                last,
            ));
        }
    }
}

/// The catalog is in ascending order of names, whatever the order of the
/// scan.
pub proof fn lemma_catalog_ascends(files: Seq<SessionFileView>)
    ensures
        names_ascend(catalog(files)),
{
    lemma_sort_ascends(listed(files));
}

/// Whether no two sessions of `list` bear the same name.
pub open spec fn names_differ(list: Seq<SessionView>) -> bool {
    forall|i: int, j: int| 0 <= i < j < list.len() ==> list[i].name != list[j].name
}

/// Two lists of ascending names that hold the same sessions, none of them
/// two of one name, are the same list.
pub proof fn lemma_ascending_lists_agree(x: Seq<SessionView>, y: Seq<SessionView>)
    requires
        names_ascend(x),
        names_ascend(y),
        names_differ(x),
        x.to_multiset() == y.to_multiset(),
    ensures
        x == y,
    decreases x.len(),
{
    vstd::seq_lib::to_multiset_len(x);
    vstd::seq_lib::to_multiset_len(y);
    if x.len() == 0 {
        assert(x =~= y);
    } else {
        let end = x.len() - 1;
        let lx = x[end];
        let ly = y[end];
        assert(x.contains(lx));
        assert(y.contains(ly));
        vstd::seq_lib::to_multiset_contains(x, lx);
        vstd::seq_lib::to_multiset_contains(y, lx);
        vstd::seq_lib::to_multiset_contains(x, ly);
        vstd::seq_lib::to_multiset_contains(y, ly);
        let j = choose|j: int| 0 <= j < y.len() && y[j] == lx;
        let i = choose|i: int| 0 <= i < x.len() && x[i] == ly;
        assert(text_le(lx.name, ly.name)) by {
            if j == end {
                crate::text::lemma_text_lt_irreflexive(lx.name);
            }
        }
        assert(text_le(ly.name, lx.name)) by {
            if i == end {
                crate::text::lemma_text_lt_irreflexive(lx.name);
            }
        }
        crate::text::lemma_text_lt_connected(lx.name, ly.name);
        assert(i == end);
        assert(lx == ly);
        vstd::seq_lib::to_multiset_remove(x, end);
        vstd::seq_lib::to_multiset_remove(y, end);
        assert(x.remove(end) =~= x.drop_last());
        assert(y.remove(end) =~= y.drop_last());
        lemma_ascending_lists_agree(x.drop_last(), y.drop_last());
        assert(x =~= x.drop_last().push(lx));
        assert(y =~= y.drop_last().push(ly));
    }
}

/// The order of the scan does not show in the catalog: two scans whose files
/// declare the same sessions yield the same catalog, where no two sessions of
/// it bear the same name.
pub proof fn lemma_catalog_ignores_scan_order(a: Seq<SessionFileView>, b: Seq<SessionFileView>)
    requires
        listed(a).to_multiset() == listed(b).to_multiset(),
        names_differ(catalog(a)),
    ensures
        catalog(a) == catalog(b),
{
    lemma_sort_permutes(listed(a));
    lemma_sort_permutes(listed(b));
    lemma_sort_ascends(listed(a));
    lemma_sort_ascends(listed(b));
    lemma_ascending_lists_agree(catalog(a), catalog(b));
}

/// Every session of the catalog is declared by one of the scanned files, and
/// that file's entry is not an excluded one: the catalog holds no session of
/// a descriptor whose `Hidden` or `NoDisplay` is `true`.
pub proof fn lemma_catalog_excludes_hidden(files: Seq<SessionFileView>, i: int)
    requires
        0 <= i < catalog(files).len(),
    ensures
        exists|j: int|
            0 <= j < files.len() && #[trigger] declared(files[j]) == Some(catalog(files)[i])
                && crate::ipc::desktop_file::desktop_entry(files[j].contents) is Ok
                && !crate::ipc::desktop_file::is_excluded(
                crate::ipc::desktop_file::desktop_entry(files[j].contents)->Ok_0,
            ),
{
    let session = catalog(files)[i];
    lemma_sort_permutes(listed(files));
    assert(catalog(files).contains(session));
    vstd::seq_lib::to_multiset_contains(catalog(files), session);
    vstd::seq_lib::to_multiset_contains(listed(files), session);
    assert(listed(files).contains(session));
    files.lemma_filter_map_contains(|file: SessionFileView| declared(file), session);
    let file = choose|file: SessionFileView| #[trigger]
        files.contains(file) && declared(file) == Some(session);
    let j = choose|j: int| 0 <= j < files.len() && files[j] == file;
    assert(declared(files[j]) == Some(session));
}

/// A descriptor whose `Hidden` or `NoDisplay` is `true` adds nothing to the
/// catalog.
pub proof fn lemma_excluded_declares_nothing(file: SessionFileView)
    requires
        crate::ipc::desktop_file::desktop_entry(file.contents) is Ok,
        crate::ipc::desktop_file::is_excluded(
            crate::ipc::desktop_file::desktop_entry(file.contents)->Ok_0,
        ),
    ensures
        declared(file) is None,
{
}

/// The session to start: the one entry of the catalog that bears the
/// preferred name, where a name is preferred and exactly one entry bears it;
/// else the first entry. An empty catalog offers none.
pub open spec fn selected(catalog: Seq<SessionView>, preferred: Option<Seq<char>>) -> Option<
    SessionView,
> {
    if catalog.len() == 0 {
        None
    } else if preferred is Some && named(catalog, preferred->0).len() == 1 {
        Some(named(catalog, preferred->0)[0])
    } else {
        Some(catalog[0])
    }
}

/// Chooses the session to start from the catalog.
pub fn select_session<'a>(catalog: &'a Vec<Session>, preferred: &Option<String>) -> (r: Option<
    &'a Session,
>)
    ensures
        r.deep_view() == selected(catalog.deep_view(), preferred.deep_view()),
{
    if catalog.len() == 0 {
        return None;
    }
    match preferred {
        None => Some(&catalog[0]),
        Some(name) => {
            let ghost pred = |s: SessionView| s.name == name@;
            let ghost all = catalog.deep_view();
            let mut found: usize = 0;
            let mut first: usize = 0;
            let mut k: usize = 0;
            proof {
                reveal(Seq::filter);
                assert(all.take(0).filter(pred) =~= Seq::<SessionView>::empty());
            }
            while k < catalog.len()
                invariant
                    k <= catalog.len(),
                    all == catalog.deep_view(),
                    pred == |s: SessionView| s.name == name@,
                    found == all.take(k as int).filter(pred).len(),
                    found <= k,
                    found > 0 ==> first < k && all.take(k as int).filter(pred)[0] == all[first as int],
                decreases catalog.len() - k,
            {
                proof {
                    assert(all.take(k + 1) =~= all.take(k as int).push(all[k as int]));
                    all.take(k as int).lemma_filter_push(all[k as int], pred);
                }
                if str_eq(catalog[k].name.as_str(), name.as_str()) {
                    if found == 0 {
                        first = k;
                    }
                    found = found + 1;
                }
                k = k + 1;
            }
            assert(all.take(k as int) =~= all);
            if found == 1 {
                Some(&catalog[first])
            } else {
                Some(&catalog[0])
            }
        },
    }
}

/// The names of the sessions of a catalog, in its order.
pub fn list_sessions(catalog: &Vec<Session>) -> (r: Vec<String>)
    ensures
        r.deep_view() == catalog.deep_view().map_values(|s: SessionView| s.name),
{
    let mut names: Vec<String> = Vec::new();
    let mut k: usize = 0;
    while k < catalog.len()
        invariant
            k <= catalog.len(),
            names.deep_view() == catalog.deep_view().take(k as int).map_values(
                |s: SessionView| s.name,
            ),
        decreases catalog.len() - k,
    {
        let ghost before = names.deep_view();
        names.push(catalog[k].name.clone());
        k = k + 1;
        proof {
            let now = catalog.deep_view().take(k as int).map_values(|s: SessionView| s.name);
            assert(names.deep_view() =~= before.push(catalog.deep_view()[k - 1].name));
            assert(now =~= before.push(catalog.deep_view()[k - 1].name));
        }
    }
    assert(catalog.deep_view().take(k as int) =~= catalog.deep_view());
    names
}

/// A copy of a list of sessions.
pub fn clone_sessions(list: &Vec<Session>) -> (r: Vec<Session>)
    ensures
        r.deep_view() == list.deep_view(),
{
    let mut copy: Vec<Session> = Vec::new();
    let mut k: usize = 0;
    while k < list.len()
        invariant
            k <= list.len(),
            copy.deep_view() == list.deep_view().take(k as int),
        decreases list.len() - k,
    {
        let ghost before = copy.deep_view();
        copy.push(list[k].clone());
        assert(copy.deep_view() =~= before.push(list.deep_view()[k as int]));
        k = k + 1;
        assert(copy.deep_view() =~= list.deep_view().take(k as int));
    }
    assert(list.deep_view().take(k as int) =~= list.deep_view());
    copy
}

} // verus!
