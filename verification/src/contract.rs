//! The agent contract of the UI sources: the `agent-id`, `agent-role` and
//! `agent-actions` declarations that `.slint` files carry, either as
//! component properties or as `// agent-id:` comment markers.
use crate::text::{chars_of, concat, decimal, decimal_string, is_ws, push_char, str_eq, trim,
    trim_str, trim_start};
use vstd::prelude::*;

verus! {

broadcast use vstd::seq_lib::group_seq_properties;

/// How an element declares its agent metadata.
#[derive(Debug, Clone, Copy, PartialEq, Eq, Structural)]
pub enum AgentDeclarationKind {
    /// `agent-id: "...";` properties on a component.
    Property,
    /// `// agent-id: "..."` comments above a built-in element.
    CommentMarker,
}

/// One declared element of the agent contract.
#[derive(Debug, Clone, PartialEq, Eq)]
pub struct AgentContractEntry {
    pub id: String,
    pub role: String,
    pub actions: Vec<String>,
    pub path: String,
    pub line: usize,
    pub kind: AgentDeclarationKind,
}

/// An entry as mathematical values.
pub struct EntryView {
    pub id: Seq<char>,
    pub role: Seq<char>,
    pub actions: Seq<Seq<char>>,
    pub path: Seq<char>,
    pub line: nat,
    pub kind: AgentDeclarationKind,
}

/// The texts of a list of strings.
pub open spec fn string_views(v: Seq<String>) -> Seq<Seq<char>> {
    v.map_values(|s: String| s@)
}

impl View for AgentContractEntry {
    type V = EntryView;

    open spec fn view(&self) -> EntryView {
        EntryView {
            id: self.id@,
            role: self.role@,
            actions: string_views(self.actions@),
            path: self.path@,
            line: self.line as nat,
            kind: self.kind,
        }
    }
}

/// The entries of a list, as mathematical values.
pub open spec fn entry_views(v: Seq<AgentContractEntry>) -> Seq<EntryView> {
    v.map_values(|e: AgentContractEntry| e@)
}

/// All declared elements, sorted by identifier.
#[derive(Debug, Clone, PartialEq, Eq)]
pub struct AgentContract {
    pub elements: Vec<AgentContractEntry>,
}

/// Where an identifier is declared.
#[derive(Debug, Clone, PartialEq, Eq)]
pub struct AgentIdLocation {
    pub path: String,
    pub line: usize,
}

// ----- lines -----
/// The characters after the last line feed of `s`.
pub open spec fn pending_line(s: Seq<char>) -> Seq<char>
    decreases s.len(),
{
    if s.len() == 0 {
        s
    } else if s.last() == '\n' {
        Seq::empty()
    } else {
        pending_line(s.drop_last()).push(s.last())
    }
}

/// `line` without one trailing carriage return.
pub open spec fn strip_cr(line: Seq<char>) -> Seq<char> {
    if line.len() > 0 && line.last() == '\r' {
        line.drop_last()
    } else {
        line
    }
}

/// The lines of `s` that a line feed has closed, without their line ending.
pub open spec fn closed_lines(s: Seq<char>) -> Seq<Seq<char>>
    decreases s.len(),
{
    if s.len() == 0 {
        Seq::empty()
    } else if s.last() == '\n' {
        closed_lines(s.drop_last()).push(strip_cr(pending_line(s.drop_last())))
    } else {
        closed_lines(s.drop_last())
    }
}

/// The lines of `s` as `str::lines` yields them: split at `\n` or `\r\n`,
/// with no empty line after a final line ending.
pub open spec fn lines_of(s: Seq<char>) -> Seq<Seq<char>> {
    if pending_line(s).len() > 0 {
        closed_lines(s).push(pending_line(s))
    } else {
        closed_lines(s)
    }
}

fn strip_cr_exec(line: String) -> (r: String)
    ensures
        r@ == strip_cr(line@),
{
    let v = chars_of(line.as_str());
    let n = v.len();
    if n > 0 && v[n - 1] == '\r' {
        crate::text::string_of(&v, 0, n - 1)
    } else {
        line
    }
}

/// The lines of `source`.
pub fn split_lines(source: &str) -> (r: Vec<String>)
    ensures
        string_views(r@) == lines_of(source@),
{
    let v = chars_of(source);
    let n = v.len();
    let mut done: Vec<String> = Vec::new();
    let mut cur = String::new();
    let mut i: usize = 0;
    while i < n
        invariant
            n == v@.len(),
            v@ == source@,
            i <= n,
            string_views(done@) == closed_lines(v@.subrange(0, i as int)),
            cur@ == pending_line(v@.subrange(0, i as int)),
        decreases n - i,
    {
        let c = v[i];
        let ghost pre = v@.subrange(0, i as int);
        assert(v@.subrange(0, i + 1).drop_last() =~= pre);
        assert(v@.subrange(0, i + 1).last() == c);
        if c == '\n' {
            let ghost before = string_views(done@);
            let line = strip_cr_exec(cur);
            done.push(line);
            assert(string_views(done@) =~= before.push(strip_cr(pending_line(pre))));
            cur = String::new();
        } else {
            push_char(&mut cur, c);
        }
        i = i + 1;
    }
    assert(v@.subrange(0, n as int) =~= v@);
    if cur.as_str().unicode_len() > 0 {
        let ghost before = string_views(done@);
        let ghost last = cur@;
        done.push(cur);
        assert(string_views(done@) =~= before.push(last));
    }
    done
}

// ----- quoted values -----
/// Whether `i` is the first position of `c` in `s`.
pub open spec fn is_first_of(s: Seq<char>, c: char, i: int) -> bool {
    0 <= i < s.len() && s[i] == c && forall|j: int| 0 <= j < i ==> s[j] != c
}

/// The first position of `c` in `s`, or -1.
pub open spec fn first_of(s: Seq<char>, c: char) -> int {
    if exists|i: int| 0 <= i < s.len() && s[i] == c {
        choose|i: int| is_first_of(s, c, i)
    } else {
        -1
    }
}

pub proof fn lemma_first_of(s: Seq<char>, c: char, i: int)
    requires
        is_first_of(s, c, i),
    ensures
        first_of(s, c) == i,
{
    let k = choose|k: int| is_first_of(s, c, k);
    assert(is_first_of(s, c, k));
    if k < i {
        assert(s[k] != c);
    } else if k > i {
        assert(s[i] != c);
    }
}

/// The text between the first pair of double quotes that follows `prefix`
/// (and optional whitespace) at the start of `line`.
pub open spec fn quoted_value_spec(line: Seq<char>, prefix: Seq<char>) -> Option<Seq<char>> {
    if !(prefix.len() <= line.len() && line.subrange(0, prefix.len() as int) == prefix) {
        None
    } else {
        let rest = trim_start(line.subrange(prefix.len() as int, line.len() as int));
        if rest.len() == 0 || rest[0] != '"' {
            None
        } else {
            let inner = rest.drop_first();
            let end = first_of(inner, '"');
            if end < 0 {
                None
            } else {
                Some(inner.subrange(0, end))
            }
        }
    }
}

/// The quoted value that follows `prefix` at the start of `line`.
pub fn quoted_value(line: &str, prefix: &str) -> (r: Option<String>)
    ensures
        match r {
            Some(v) => quoted_value_spec(line@, prefix@) == Some(v@),
            None => quoted_value_spec(line@, prefix@) is None,
        },
{
    if !crate::text::starts_with(line, prefix) {
        return None;
    }
    let v = chars_of(line);
    let n = v.len();
    let m = prefix.unicode_len();
    let mut start = m;
    while start < n && crate::text::is_whitespace(v[start])
        invariant
            n == v@.len(),
            m <= start <= n,
            forall|i: int| m <= i < start ==> is_ws(#[trigger] v@[i]),
        decreases n - start,
    {
        start = start + 1;
    }
    let ghost after = v@.subrange(m as int, n as int);
    proof {
        assert forall|i: int| 0 <= i < start - m implies is_ws(#[trigger] after[i]) by {
            assert(after[i] == v@[m + i]);
        }
        crate::text::lemma_trim_start_skip(after, start - m);
        assert(after.subrange(start - m, after.len() as int) =~= v@.subrange(
            start as int,
            n as int,
        ));
        if start < n {
            assert(v@.subrange(start as int, n as int)[0] == v@[start as int]);
        }
    }
    if start >= n || v[start] != '"' {
        return None;
    }
    let ghost rest = v@.subrange(start as int, n as int);
    let ghost inner = rest.drop_first();
    let mut end = start + 1;
    while end < n && v[end] != '"'
        invariant
            n == v@.len(),
            start + 1 <= end <= n,
            forall|j: int| start + 1 <= j < end ==> v@[j] != '"',
        decreases n - end,
    {
        end = end + 1;
    }
    proof {
        assert(inner =~= v@.subrange(start + 1, n as int));
    }
    if end >= n {
        proof {
            if exists|i: int| 0 <= i < inner.len() && inner[i] == '"' {
                let i = choose|i: int| 0 <= i < inner.len() && inner[i] == '"';
                assert(inner[i] == v@[start + 1 + i]);
            }
        }
        return None;
    }
    proof {
        let k = end - start - 1;
        assert(inner[k] == v@[end as int]);
        assert forall|j: int| 0 <= j < k implies inner[j] != '"' by {
            assert(inner[j] == v@[start + 1 + j]);
        }
        lemma_first_of(inner, '"', k);
        assert(inner.subrange(0, k) =~= v@.subrange(start + 1, end as int));
    }
    Some(crate::text::string_of(&v, start + 1, end))
}

// ----- actions -----
/// The pieces of `s` between commas, empty pieces included.
pub open spec fn comma_pieces(s: Seq<char>) -> Seq<Seq<char>>
    decreases s.len(),
{
    if s.len() == 0 {
        seq![Seq::<char>::empty()]
    } else if s.last() == ',' {
        comma_pieces(s.drop_last()).push(Seq::empty())
    } else {
        let p = comma_pieces(s.drop_last());
        p.update(p.len() - 1, p.last().push(s.last()))
    }
}

pub proof fn lemma_comma_pieces_nonempty(s: Seq<char>)
    ensures
        comma_pieces(s).len() >= 1,
    decreases s.len(),
{
    if s.len() > 0 {
        lemma_comma_pieces_nonempty(s.drop_last());
    }
}

/// Whether a piece holds at least one character.
pub open spec fn nonempty_piece() -> spec_fn(Seq<char>) -> bool {
    |p: Seq<char>| p.len() > 0
}

/// The actions of an `agent-actions` value: its comma-separated pieces,
/// without empty ones.
pub open spec fn split_actions(s: Seq<char>) -> Seq<Seq<char>> {
    comma_pieces(s).filter(nonempty_piece())
}

/// The actions listed in an `agent-actions` value.
pub fn parse_actions(value: &str) -> (r: Vec<String>)
    ensures
        string_views(r@) == split_actions(value@),
{
    let v = chars_of(value);
    let n = v.len();
    let mut done: Vec<String> = Vec::new();
    let mut cur = String::new();
    let mut i: usize = 0;
    proof {
        assert(v@.subrange(0, 0) =~= Seq::<char>::empty());
        assert(comma_pieces(Seq::<char>::empty()).drop_last() =~= Seq::<Seq<char>>::empty());
        assert(Seq::<Seq<char>>::empty().filter(nonempty_piece()) =~= Seq::<Seq<char>>::empty());
    }
    while i < n
        invariant
            n == v@.len(),
            v@ == value@,
            i <= n,
            comma_pieces(v@.subrange(0, i as int)).len() >= 1,
            string_views(done@) == comma_pieces(v@.subrange(0, i as int)).drop_last().filter(
                nonempty_piece(),
            ),
            cur@ == comma_pieces(v@.subrange(0, i as int)).last(),
        decreases n - i,
    {
        let c = v[i];
        let ghost pre = v@.subrange(0, i as int);
        let ghost pieces = comma_pieces(pre);
        let ghost next = v@.subrange(0, i + 1);
        assert(next.drop_last() =~= pre);
        assert(next.last() == c);
        proof {
            assert(pieces.drop_last().push(pieces.last()) =~= pieces);
            pieces.drop_last().lemma_filter_push(pieces.last(), nonempty_piece());
        }
        if c == ',' {
            assert(comma_pieces(next) == pieces.push(Seq::<char>::empty()));
            assert(comma_pieces(next).drop_last() =~= pieces);
            if cur.as_str().unicode_len() > 0 {
                let ghost before = string_views(done@);
                let ghost last = cur@;
                done.push(cur);
                assert(string_views(done@) =~= before.push(last));
            }
            cur = String::new();
        } else {
            assert(comma_pieces(next).drop_last() =~= pieces.drop_last());
            push_char(&mut cur, c);
        }
        i = i + 1;
    }
    assert(v@.subrange(0, n as int) =~= v@);
    let ghost pieces = comma_pieces(v@);
    proof {
        assert(pieces.drop_last().push(pieces.last()) =~= pieces);
        pieces.drop_last().lemma_filter_push(pieces.last(), nonempty_piece());
    }
    if cur.as_str().unicode_len() > 0 {
        let ghost before = string_views(done@);
        let ghost last = cur@;
        done.push(cur);
        assert(string_views(done@) =~= before.push(last));
    }
    done
}

// ----- declarations -----
/// Whether `s` starts with `p`.
pub open spec fn starts_with_spec(s: Seq<char>, p: Seq<char>) -> bool {
    p.len() <= s.len() && s.subrange(0, p.len() as int) == p
}

pub open spec fn id_prefix(marker: bool) -> Seq<char> {
    if marker {
        "// agent-id:"@
    } else {
        "agent-id:"@
    }
}

pub open spec fn role_prefix(marker: bool) -> Seq<char> {
    if marker {
        "// agent-role:"@
    } else {
        "agent-role:"@
    }
}

pub open spec fn actions_prefix(marker: bool) -> Seq<char> {
    if marker {
        "// agent-actions:"@
    } else {
        "agent-actions:"@
    }
}

/// The role and actions that the lines from `j` on declare for an element,
/// starting from those found so far. Each line is trimmed; a role or
/// actions line sets its value (a later one overrides an earlier one);
/// blank lines are passed over, and so are comment lines after a comment
/// marker; any other line ends the element.
pub open spec fn metadata_from(
    lines: Seq<Seq<char>>,
    j: int,
    marker: bool,
    role: Option<Seq<char>>,
    actions: Option<Seq<Seq<char>>>,
) -> (Option<Seq<char>>, Option<Seq<Seq<char>>>)
    decreases lines.len() - j,
{
    if j < 0 || j >= lines.len() {
        (role, actions)
    } else {
        let cand = trim(lines[j]);
        match quoted_value_spec(cand, role_prefix(marker)) {
            Some(v) => metadata_from(lines, j + 1, marker, Some(v), actions),
            None => match quoted_value_spec(cand, actions_prefix(marker)) {
                Some(v) => metadata_from(lines, j + 1, marker, role, Some(split_actions(v))),
                None => if cand.len() == 0 || (marker && starts_with_spec(cand, "//"@)) {
                    metadata_from(lines, j + 1, marker, role, actions)
                } else {
                    (role, actions)
                },
            },
        }
    }
}

/// The message for an identifier whose `what` is missing.
pub open spec fn missing_message(id: Seq<char>, line: nat, what: Seq<char>) -> Seq<char> {
    "agent-id \""@ + id + "\" at line "@ + decimal(line) + " has no "@ + what
}

/// How line `t` (trimmed) starts a declaration, if it does.
pub open spec fn declaration_kind(t: Seq<char>) -> Option<AgentDeclarationKind> {
    if starts_with_spec(t, id_prefix(true)) {
        Some(AgentDeclarationKind::CommentMarker)
    } else if starts_with_spec(t, id_prefix(false)) {
        Some(AgentDeclarationKind::Property)
    } else {
        None
    }
}

/// The element that line `i` declares, if it declares one with a non-empty
/// identifier: an entry, or an error when its role or actions are missing.
pub open spec fn declaration(lines: Seq<Seq<char>>, i: int) -> Option<Result<EntryView, Seq<char>>> {
    let t = trim(lines[i]);
    match declaration_kind(t) {
        None => None,
        Some(kind) => {
            let marker = kind == AgentDeclarationKind::CommentMarker;
            match quoted_value_spec(t, id_prefix(marker)) {
                None => None,
                Some(id) => if id.len() == 0 {
                    None
                } else {
                    let meta = metadata_from(lines, i + 1, marker, None, None);
                    match meta.0 {
                        None => Some(Err(missing_message(id, (i + 1) as nat, "agent-role"@))),
                        Some(role) => match meta.1 {
                            None => Some(Err(missing_message(id, (i + 1) as nat, "agent-actions"@))),
                            Some(actions) => Some(
                                Ok(
                                    EntryView {
                                        id,
                                        role,
                                        actions,
                                        path: Seq::empty(),
                                        line: (i + 1) as nat,
                                        kind,
                                    },
                                ),
                            ),
                        },
                    }
                },
            }
        },
    }
}

/// The declarations of lines `i..`, in order, or the first error.
pub open spec fn scan_from(lines: Seq<Seq<char>>, i: int) -> Result<Seq<EntryView>, Seq<char>>
    decreases lines.len() - i,
{
    if i < 0 || i >= lines.len() {
        Ok(Seq::empty())
    } else {
        match declaration(lines, i) {
            None => scan_from(lines, i + 1),
            Some(Err(m)) => Err(m),
            Some(Ok(e)) => match scan_from(lines, i + 1) {
                Ok(rest) => Ok(seq![e] + rest),
                Err(m) => Err(m),
            },
        }
    }
}

/// The declarations of a whole source file.
pub open spec fn scan_spec(source: Seq<char>) -> Result<Seq<EntryView>, Seq<char>> {
    scan_from(lines_of(source), 0)
}

/// The views of an optional string and of optional action lists.
pub open spec fn opt_actions_view(o: Option<Vec<String>>) -> Option<Seq<Seq<char>>> {
    match o {
        Some(v) => Some(string_views(v@)),
        None => None,
    }
}

fn metadata_after(lines: &Vec<String>, i: usize, marker: bool) -> (r: (Option<String>, Option<Vec<String>>))
    requires
        i < lines@.len(),
    ensures
        (crate::state::opt_view(r.0), opt_actions_view(r.1)) == metadata_from(
            string_views(lines@),
            i + 1,
            marker,
            None,
            None,
        ),
{
    let ghost ls = string_views(lines@);
    let role_p = if marker {
        "// agent-role:"
    } else {
        "agent-role:"
    };
    let actions_p = if marker {
        "// agent-actions:"
    } else {
        "agent-actions:"
    };
    let mut role: Option<String> = None;
    let mut actions: Option<Vec<String>> = None;
    let n = lines.len();
    let mut j = i + 1;
    let mut stop = false;
    while j < lines.len() && !stop
        invariant
            ls == string_views(lines@),
            role_p@ == role_prefix(marker),
            actions_p@ == actions_prefix(marker),
            i + 1 <= j <= lines@.len(),
            !stop ==> metadata_from(ls, i + 1, marker, None, None) == metadata_from(
                ls,
                j as int,
                marker,
                crate::state::opt_view(role),
                opt_actions_view(actions),
            ),
            stop ==> metadata_from(ls, i + 1, marker, None, None) == (
                crate::state::opt_view(role),
                opt_actions_view(actions),
            ),
        decreases lines@.len() - j + (if stop { 0int } else { 1int }),
    {
        let cand = trim_str(lines[j].as_str());
        assert(ls[j as int] == lines@[j as int]@);
        match quoted_value(cand.as_str(), role_p) {
            Some(v) => {
                role = Some(v);
                j = j + 1;
            },
            None => match quoted_value(cand.as_str(), actions_p) {
                Some(v) => {
                    actions = Some(parse_actions(v.as_str()));
                    j = j + 1;
                },
                None => {
                    let blank = cand.as_str().unicode_len() == 0;
                    if blank || (marker && crate::text::starts_with(cand.as_str(), "//")) {
                        j = j + 1;
                    } else {
                        stop = true;
                    }
                },
            },
        }
    }
    (role, actions)
}

fn missing_metadata(id: &str, line: usize, what: &str) -> (r: String)
    ensures
        r@ == missing_message(id@, line as nat, what@),
{
    let mut s = concat("agent-id \"", id);
    s.append("\" at line ");
    let n = decimal_string(line as u64);
    s.append(n.as_str());
    s.append(" has no ");
    s.append(what);
    s
}

fn declaration_at(lines: &Vec<String>, i: usize) -> (r: Option<Result<AgentContractEntry, String>>)
    requires
        i < lines@.len(),
    ensures
        match r {
            None => declaration(string_views(lines@), i as int) is None,
            Some(Err(m)) => declaration(string_views(lines@), i as int) == Some(
                Err::<EntryView, Seq<char>>(m@),
            ),
            Some(Ok(e)) => declaration(string_views(lines@), i as int) == Some(
                Ok::<EntryView, Seq<char>>(e@),
            ),
        },
{
    let ghost ls = string_views(lines@);
    assert(ls[i as int] == lines@[i as int]@);
    let trimmed = trim_str(lines[i].as_str());
    let t = trimmed.as_str();
    let (kind, prefix) = if crate::text::starts_with(t, "// agent-id:") {
        (AgentDeclarationKind::CommentMarker, "// agent-id:")
    } else if crate::text::starts_with(t, "agent-id:") {
        (AgentDeclarationKind::Property, "agent-id:")
    } else {
        return None;
    };
    let marker = match kind {
        AgentDeclarationKind::CommentMarker => true,
        AgentDeclarationKind::Property => false,
    };
    let id = match quoted_value(t, prefix) {
        Some(id) => id,
        None => return None,
    };
    if id.as_str().unicode_len() == 0 {
        return None;
    }
    let n = lines.len();
    let (role, actions) = metadata_after(lines, i, marker);
    let role = match role {
        Some(r) => r,
        None => return Some(Err(missing_metadata(id.as_str(), i + 1, "agent-role"))),
    };
    let actions = match actions {
        Some(a) => a,
        None => return Some(Err(missing_metadata(id.as_str(), i + 1, "agent-actions"))),
    };
    Some(Ok(AgentContractEntry { id, role, actions, path: String::new(), line: i + 1, kind }))
}

/// The declarations of a source file, in order; or the message for the
/// first identifier whose role or actions are missing.
pub fn scan_agent_contract(source: &str) -> (r: Result<Vec<AgentContractEntry>, String>)
    ensures
        match r {
            Ok(v) => scan_spec(source@) == Ok::<Seq<EntryView>, Seq<char>>(entry_views(v@)),
            Err(m) => scan_spec(source@) == Err::<Seq<EntryView>, Seq<char>>(m@),
        },
{
    let lines = split_lines(source);
    let ghost ls = string_views(lines@);
    let mut entries: Vec<AgentContractEntry> = Vec::new();
    let mut i: usize = 0;
    while i < lines.len()
        invariant
            ls == string_views(lines@),
            ls == lines_of(source@),
            i <= lines@.len(),
            scan_from(ls, 0) == match scan_from(ls, i as int) {
                Ok(rest) => Ok::<Seq<EntryView>, Seq<char>>(entry_views(entries@) + rest),
                Err(m) => Err(m),
            },
        decreases lines@.len() - i,
    {
        match declaration_at(&lines, i) {
            None => {},
            Some(Err(m)) => {
                return Err(m);
            },
            Some(Ok(e)) => {
                let ghost before = entry_views(entries@);
                let ghost ev = e@;
                entries.push(e);
                assert(entry_views(entries@) =~= before.push(ev));
                proof {
                    match scan_from(ls, i + 1) {
                        Ok(rest) => {
                            assert(before + (seq![ev] + rest) =~= before.push(ev) + rest);
                        },
                        Err(_) => {},
                    }
                }
            },
        }
        i = i + 1;
    }
    assert(entry_views(entries@) + Seq::<EntryView>::empty() =~= entry_views(entries@));
    Ok(entries)
}

// ----- duplicates -----
/// Whether `a` comes before `b` in lexicographic order of code points,
/// which is the order of `str` comparison.
pub open spec fn lex_lt(a: Seq<char>, b: Seq<char>) -> bool {
    exists|k: int|
        0 <= k <= a.len() && k <= b.len() && a.subrange(0, k) == b.subrange(0, k) && ((k
            == a.len() && k < b.len()) || (k < a.len() && k < b.len() && (a[k] as u32) < (
        #[trigger] b[k] as u32)))
}

/// Identifiers in ascending order, each once.
pub open spec fn ascending(d: Seq<Seq<char>>) -> bool {
    &&& d.no_duplicates()
    &&& forall|i: int, j: int| 0 <= i < j < d.len() ==> !lex_lt(#[trigger] d[j], #[trigger] d[i])
}

/// Sorts strings ascending by `Ord for String`, which compares the UTF-8
/// bytes lexicographically; UTF-8 keeps the order of code points, so the
/// result is ordered by `lex_lt`. Calls `slice::sort`, which only reorders.
#[verifier::external_body]
fn sort_strings(v: &mut Vec<String>)
    ensures
        string_views(final(v)@).to_multiset() == string_views(old(v)@).to_multiset(),
        final(v)@.len() == old(v)@.len(),
        forall|i: int, j: int|
            0 <= i < j < final(v)@.len() ==> !lex_lt(
                #[trigger] string_views(final(v)@)[j],
                #[trigger] string_views(final(v)@)[i],
            ),
{
    v.sort();
}

/// Whether an entry declares identifier `id`.
pub open spec fn declares(id: Seq<char>) -> spec_fn(EntryView) -> bool {
    |e: EntryView| e.id == id
}

/// `path:line` of an entry.
pub open spec fn location_text(e: EntryView) -> Seq<char> {
    e.path + ":"@ + decimal(e.line)
}

/// Where identifier `id` is declared, in the order of the entries.
pub open spec fn locations(es: Seq<EntryView>, id: Seq<char>) -> Seq<Seq<char>> {
    es.filter(declares(id)).map_values(|e: EntryView| location_text(e))
}

/// Whether `id` is declared more than once.
pub open spec fn is_duplicated(es: Seq<EntryView>, id: Seq<char>) -> bool {
    es.filter(declares(id)).len() > 1
}

/// The parts joined with `sep` between each two.
pub open spec fn join(parts: Seq<Seq<char>>, sep: Seq<char>) -> Seq<char>
    decreases parts.len(),
{
    if parts.len() == 0 {
        Seq::empty()
    } else if parts.len() == 1 {
        parts[0]
    } else {
        join(parts.drop_last(), sep) + sep + parts.last()
    }
}

/// The message for a duplicated identifier and its locations.
pub open spec fn duplicate_message(es: Seq<EntryView>, id: Seq<char>) -> Seq<char> {
    "duplicate agent-id \""@ + id + "\": "@ + join(locations(es, id), ", "@)
}

/// The report for the duplicated identifiers `d`, one line each.
pub open spec fn duplicate_report(es: Seq<EntryView>, d: Seq<Seq<char>>) -> Seq<char> {
    join(d.map_values(|id: Seq<char>| duplicate_message(es, id)), "\n"@)
}

/// `parts` joined with `sep`.
pub fn join_strings(parts: &Vec<String>, sep: &str) -> (r: String)
    ensures
        r@ == join(string_views(parts@), sep@),
{
    let mut out = String::new();
    let mut i: usize = 0;
    while i < parts.len()
        invariant
            i <= parts@.len(),
            out@ == join(string_views(parts@).subrange(0, i as int), sep@),
        decreases parts@.len() - i,
    {
        let ghost pre = string_views(parts@).subrange(0, i as int);
        let ghost next = string_views(parts@).subrange(0, i + 1);
        assert(next.drop_last() =~= pre);
        if i > 0 {
            out.append(sep);
        }
        out.append(parts[i].as_str());
        proof {
            if i == 0 {
                assert(out@ =~= next[0]);
            } else {
                assert(out@ =~= join(pre, sep@) + sep@ + next.last());
            }
        }
        i = i + 1;
    }
    assert(string_views(parts@).subrange(0, parts@.len() as int) =~= string_views(parts@));
    out
}

fn location_of(e: &AgentContractEntry) -> (r: String)
    ensures
        r@ == location_text(e@),
{
    let line = decimal_string(e.line as u64);
    crate::text::concat3(e.path.as_str(), ":", line.as_str())
}

fn locations_of(entries: &Vec<AgentContractEntry>, id: &str) -> (r: Vec<String>)
    ensures
        string_views(r@) == locations(entry_views(entries@), id@),
{
    let ghost es = entry_views(entries@);
    let mut out: Vec<String> = Vec::new();
    let mut i: usize = 0;
    while i < entries.len()
        invariant
            es == entry_views(entries@),
            i <= entries@.len(),
            string_views(out@) == locations(es.subrange(0, i as int), id@),
        decreases entries@.len() - i,
    {
        let ghost pre = es.subrange(0, i as int);
        assert(es.subrange(0, i + 1) =~= pre.push(es[i as int]));
        proof {
            pre.lemma_filter_push(es[i as int], declares(id@));
        }
        let ghost before = string_views(out@);
        if str_eq(entries[i].id.as_str(), id) {
            let loc = location_of(&entries[i]);
            out.push(loc);
            assert(string_views(out@) =~= before.push(location_text(es[i as int])));
            assert(pre.push(es[i as int]).filter(declares(id@)) == pre.filter(declares(id@)).push(es[i as int]));
            assert(locations(es.subrange(0, i + 1), id@) =~= before.push(location_text(es[i as int])));
        } else {
            assert(locations(es.subrange(0, i + 1), id@) =~= before);
        }
        i = i + 1;
    }
    assert(es.subrange(0, es.len() as int) =~= es);
    out
}

/// The identifiers of the entries, each once, in order of first appearance.
fn distinct_ids(entries: &Vec<AgentContractEntry>) -> (r: Vec<String>)
    ensures
        string_views(r@).no_duplicates(),
        forall|x: Seq<char>|
            string_views(r@).contains(x) <==> (exists|i: int|
                0 <= i < entries@.len() && (#[trigger] entry_views(entries@)[i]).id == x),
{
    let ghost es = entry_views(entries@);
    let mut out: Vec<String> = Vec::new();
    let mut i: usize = 0;
    while i < entries.len()
        invariant
            es == entry_views(entries@),
            i <= entries@.len(),
            string_views(out@).no_duplicates(),
            forall|x: Seq<char>|
                string_views(out@).contains(x) <==> (exists|j: int| 0 <= j < i && (#[trigger] es[j]).id == x),
        decreases entries@.len() - i,
    {
        let ghost before = string_views(out@);
        let id = entries[i].id.as_str();
        let mut seen = false;
        let mut k: usize = 0;
        while k < out.len()
            invariant
                before == string_views(out@),
                k <= out@.len(),
                seen <==> exists|t: int| 0 <= t < k && before[t] == id@,
            decreases out@.len() - k,
        {
            assert(before[k as int] == out@[k as int]@);
            if str_eq(out[k].as_str(), id) {
                seen = true;
            }
            k = k + 1;
        }
        assert(es[i as int].id == id@);
        if !seen {
            out.push(id.to_owned());
            assert(string_views(out@) =~= before.push(id@));
            assert forall|x: Seq<char>|
                string_views(out@).contains(x) <==> (exists|j: int| 0 <= j < i + 1 && (#[trigger] es[j]).id == x) by {
                if string_views(out@).contains(x) {
                    let t = choose|t: int| 0 <= t < string_views(out@).len() && string_views(out@)[t] == x;
                    if t < before.len() {
                        assert(before.contains(x));
                    }
                }
                if exists|j: int| 0 <= j < i + 1 && (#[trigger] es[j]).id == x {
                    let j = choose|j: int| 0 <= j < i + 1 && (#[trigger] es[j]).id == x;
                    if j < i {
                        assert(before.contains(x));
                        let t = choose|t: int| 0 <= t < before.len() && before[t] == x;
                        assert(string_views(out@)[t] == x);
                    } else {
                        assert(string_views(out@)[before.len() as int] == x);
                    }
                }
            }
        } else {
            assert forall|x: Seq<char>|
                string_views(out@).contains(x) <==> (exists|j: int| 0 <= j < i + 1 && (#[trigger] es[j]).id == x) by {
                if exists|j: int| 0 <= j < i + 1 && (#[trigger] es[j]).id == x {
                    let j = choose|j: int| 0 <= j < i + 1 && (#[trigger] es[j]).id == x;
                    if j == i {
                        let t = choose|t: int| 0 <= t < k && before[t] == id@;
                        assert(before[t] == x);
                    }
                }
            }
        }
        i = i + 1;
    }
    out
}

/// Checks that no identifier is declared twice. The error lists every
/// duplicated identifier in ascending order, one line each, with all the
/// places where it is declared.
pub fn reject_duplicates(elements: &Vec<AgentContractEntry>) -> (r: Result<(), String>)
    ensures
        r is Ok <==> (forall|id: Seq<char>| !#[trigger] is_duplicated(entry_views(elements@), id)),
        r matches Err(m) ==> exists|d: Seq<Seq<char>>|
            ascending(d) && (forall|id: Seq<char>|
                d.contains(id) <==> #[trigger] is_duplicated(entry_views(elements@), id)) && m@
                == #[trigger] duplicate_report(entry_views(elements@), d),
{
    let ghost es = entry_views(elements@);
    let mut ids = distinct_ids(elements);
    let ghost before_sort = string_views(ids@);
    sort_strings(&mut ids);
    let ghost sorted = string_views(ids@);
    proof {
        broadcast use vstd::seq_lib::to_multiset_contains;
        before_sort.lemma_multiset_has_no_duplicates();
        assert forall|x: Seq<char>| sorted.to_multiset().contains(x) implies sorted.to_multiset().count(x) == 1 by {
            assert(before_sort.to_multiset().contains(x));
        }
        sorted.lemma_multiset_has_no_duplicates_conv();
        assert forall|x: Seq<char>| sorted.contains(x) <==> before_sort.contains(x) by {
            assert(sorted.to_multiset().count(x) == before_sort.to_multiset().count(x));
        }
    }
    let mut messages: Vec<String> = Vec::new();
    let mut dups: Vec<String> = Vec::new();
    let ghost mut idx: Seq<int> = Seq::empty();
    let mut k: usize = 0;
    while k < ids.len()
        invariant
            es == entry_views(elements@),
            sorted == string_views(ids@),
            sorted.no_duplicates(),
            forall|i: int, j: int| 0 <= i < j < sorted.len() ==> !lex_lt(#[trigger] sorted[j], #[trigger] sorted[i]),
            forall|x: Seq<char>|
                sorted.contains(x) <==> (exists|i: int| 0 <= i < es.len() && (#[trigger] es[i]).id == x),
            k <= ids@.len(),
            idx.len() == dups@.len(),
            forall|t: int| 0 <= t < idx.len() ==> 0 <= #[trigger] idx[t] < k,
            forall|t: int, u: int| 0 <= t < u < idx.len() ==> #[trigger] idx[t] < #[trigger] idx[u],
            forall|t: int| 0 <= t < idx.len() ==> string_views(dups@)[t] == sorted[#[trigger] idx[t]],
            forall|x: Seq<char>|
                string_views(dups@).contains(x) <==> (exists|j: int| 0 <= j < k && #[trigger] sorted[j] == x && is_duplicated(es, x)),
            string_views(messages@) == string_views(dups@).map_values(|id: Seq<char>| duplicate_message(es, id)),
        decreases ids@.len() - k,
    {
        let locs = locations_of(elements, ids[k].as_str());
        let ghost x = sorted[k as int];
        assert(ids@[k as int]@ == x);
        assert(string_views(locs@).len() == locs@.len());
        assert(locations(es, x).len() == es.filter(declares(x)).len());
        assert(locs@.len() == es.filter(declares(x)).len());
        let ghost dv = string_views(dups@);
        let ghost mv = string_views(messages@);
        if locs.len() > 1 {
            let joined = join_strings(&locs, ", ");
            let mut msg = concat("duplicate agent-id \"", ids[k].as_str());
            msg.append("\": ");
            msg.append(joined.as_str());
            messages.push(msg);
            dups.push(ids[k].clone());
            proof {
                idx = idx.push(k as int);
                assert(string_views(dups@) =~= dv.push(x));
                assert(string_views(messages@) =~= mv.push(duplicate_message(es, x)));
                assert(string_views(messages@) =~= string_views(dups@).map_values(|id: Seq<char>| duplicate_message(es, id)));
                assert forall|x2: Seq<char>|
                    string_views(dups@).contains(x2) <==> (exists|j: int| 0 <= j < k + 1 && #[trigger] sorted[j] == x2 && is_duplicated(es, x2)) by {
                    if string_views(dups@).contains(x2) {
                        let t = choose|t: int| 0 <= t < string_views(dups@).len() && string_views(dups@)[t] == x2;
                        if t < dv.len() {
                            assert(dv.contains(x2));
                        } else {
                            assert(sorted[k as int] == x2);
                        }
                    }
                    if exists|j: int| 0 <= j < k + 1 && #[trigger] sorted[j] == x2 && is_duplicated(es, x2) {
                        let j = choose|j: int| 0 <= j < k + 1 && #[trigger] sorted[j] == x2 && is_duplicated(es, x2);
                        if j < k {
                            assert(dv.contains(x2));
                            let t = choose|t: int| 0 <= t < dv.len() && dv[t] == x2;
                            assert(string_views(dups@)[t] == x2);
                        } else {
                            assert(string_views(dups@)[dv.len() as int] == x2);
                        }
                    }
                }
            }
        } else {
            proof {
                assert forall|x2: Seq<char>|
                    string_views(dups@).contains(x2) <==> (exists|j: int| 0 <= j < k + 1 && #[trigger] sorted[j] == x2 && is_duplicated(es, x2)) by {
                    if exists|j: int| 0 <= j < k + 1 && #[trigger] sorted[j] == x2 && is_duplicated(es, x2) {
                        let j = choose|j: int| 0 <= j < k + 1 && #[trigger] sorted[j] == x2 && is_duplicated(es, x2);
                        if j == k {
                            assert(!is_duplicated(es, x2));
                        }
                    }
                }
            }
        }
        k = k + 1;
    }
    let ghost d = string_views(dups@);
    proof {
        assert forall|i: int, j: int| 0 <= i < j < d.len() implies !lex_lt(#[trigger] d[j], #[trigger] d[i]) by {
            assert(d[i] == sorted[idx[i]]);
            assert(d[j] == sorted[idx[j]]);
        }
        assert forall|i: int, j: int| 0 <= i < d.len() && 0 <= j < d.len() && i != j implies d[i] != d[j] by {
            assert(d[i] == sorted[idx[i]]);
            assert(d[j] == sorted[idx[j]]);
        }
        assert forall|id: Seq<char>| d.contains(id) <==> #[trigger] is_duplicated(es, id) by {
            if is_duplicated(es, id) {
                let f = es.filter(declares(id));
                assert(f.len() > 0);
                let e = f[0];
                assert(f.contains(e));
                es.lemma_filter_contains_rev(declares(id), e);
                assert(es.contains(e));
                let i = choose|i: int| 0 <= i < es.len() && es[i] == e;
                es.lemma_filter_pred(declares(id), 0);
                assert(es[i].id == id);
                assert(sorted.contains(id));
                let j = choose|j: int| 0 <= j < sorted.len() && sorted[j] == id;
                assert(sorted[j] == id);
            }
        }
    }
    if messages.len() == 0 {
        proof {
            assert forall|id: Seq<char>| !#[trigger] is_duplicated(es, id) by {
                if is_duplicated(es, id) {
                    assert(d.contains(id));
                }
            }
        }
        return Ok(());
    }
    let report = join_strings(&messages, "\n");
    proof {
        assert(d.len() > 0);
        assert(d.contains(d[0]));
        assert(is_duplicated(es, d[0]));
        assert(ascending(d));
        assert(report@ == duplicate_report(es, d));
    }
    Err(report)
}

/// The identifiers of the entries, each once, in ascending order.
fn sorted_ids(elements: &Vec<AgentContractEntry>) -> (r: Vec<String>)
    ensures
        ascending(string_views(r@)),
        forall|x: Seq<char>|
            string_views(r@).contains(x) <==> (exists|i: int|
                0 <= i < elements@.len() && (#[trigger] entry_views(elements@)[i]).id == x),
{
    let mut ids = distinct_ids(elements);
    let ghost before_sort = string_views(ids@);
    sort_strings(&mut ids);
    let ghost sorted = string_views(ids@);
    proof {
        broadcast use vstd::seq_lib::to_multiset_contains;
        before_sort.lemma_multiset_has_no_duplicates();
        assert forall|x: Seq<char>| sorted.to_multiset().contains(x) implies sorted.to_multiset().count(x) == 1 by {
            assert(before_sort.to_multiset().contains(x));
        }
        sorted.lemma_multiset_has_no_duplicates_conv();
        assert forall|x: Seq<char>| sorted.contains(x) <==> before_sort.contains(x) by {
            assert(sorted.to_multiset().count(x) == before_sort.to_multiset().count(x));
        }
    }
    ids
}

/// An identifier and the places where it is declared.
#[derive(Debug, Clone, PartialEq, Eq)]
pub struct AgentIdGroup {
    pub id: String,
    pub locations: Vec<AgentIdLocation>,
}

/// The identifiers of a list of groups.
pub open spec fn group_ids(groups: Seq<AgentIdGroup>) -> Seq<Seq<char>> {
    groups.map_values(|g: AgentIdGroup| g.id@)
}

/// A location as mathematical values.
pub open spec fn location_view(l: AgentIdLocation) -> (Seq<char>, nat) {
    (l.path@, l.line as nat)
}

/// The place an entry declares.
pub open spec fn entry_location(e: EntryView) -> (Seq<char>, nat) {
    (e.path, e.line)
}

/// The places where `id` is declared, in the order of the entries.
pub open spec fn id_locations(es: Seq<EntryView>, id: Seq<char>) -> Seq<(Seq<char>, nat)> {
    es.filter(declares(id)).map_values(|e: EntryView| entry_location(e))
}

fn id_locations_of(entries: &Vec<AgentContractEntry>, id: &str) -> (r: Vec<AgentIdLocation>)
    ensures
        r@.map_values(|l: AgentIdLocation| location_view(l)) == id_locations(entry_views(entries@), id@),
{
    let ghost es = entry_views(entries@);
    let mut out: Vec<AgentIdLocation> = Vec::new();
    let mut i: usize = 0;
    while i < entries.len()
        invariant
            es == entry_views(entries@),
            i <= entries@.len(),
            out@.map_values(|l: AgentIdLocation| location_view(l)) == id_locations(es.subrange(0, i as int), id@),
        decreases entries@.len() - i,
    {
        let ghost pre = es.subrange(0, i as int);
        assert(es.subrange(0, i + 1) =~= pre.push(es[i as int]));
        proof {
            pre.lemma_filter_push(es[i as int], declares(id@));
        }
        let ghost before = out@.map_values(|l: AgentIdLocation| location_view(l));
        if str_eq(entries[i].id.as_str(), id) {
            out.push(AgentIdLocation { path: entries[i].path.clone(), line: entries[i].line });
            assert(out@.map_values(|l: AgentIdLocation| location_view(l)) =~= before.push(entry_location(es[i as int])));
            assert(id_locations(es.subrange(0, i + 1), id@) =~= before.push(entry_location(es[i as int])));
        } else {
            assert(id_locations(es.subrange(0, i + 1), id@) =~= before);
        }
        i = i + 1;
    }
    assert(es.subrange(0, es.len() as int) =~= es);
    out
}

/// The declared identifiers in ascending order, each with all the places
/// where it is declared, in the order of the contract.
pub fn collect_agent_ids(contract: &AgentContract) -> (r: Vec<AgentIdGroup>)
    ensures
        ascending(group_ids(r@)),
        forall|x: Seq<char>|
            group_ids(r@).contains(x) <==> (exists|i: int|
                0 <= i < contract.elements@.len() && (#[trigger] entry_views(contract.elements@)[i]).id == x),
        forall|k: int|
            0 <= k < r@.len() ==> (#[trigger] r@[k]).locations@.map_values(|l: AgentIdLocation| location_view(l))
                == id_locations(entry_views(contract.elements@), r@[k].id@),
{
    let ids = sorted_ids(&contract.elements);
    let ghost sv = string_views(ids@);
    let mut groups: Vec<AgentIdGroup> = Vec::new();
    let mut k: usize = 0;
    while k < ids.len()
        invariant
            sv == string_views(ids@),
            k <= ids@.len(),
            groups@.len() == k,
            forall|t: int| 0 <= t < k ==> (#[trigger] groups@[t]).id@ == sv[t],
            forall|t: int|
                0 <= t < k ==> (#[trigger] groups@[t]).locations@.map_values(|l: AgentIdLocation| location_view(l))
                    == id_locations(entry_views(contract.elements@), groups@[t].id@),
        decreases ids@.len() - k,
    {
        let locations = id_locations_of(&contract.elements, ids[k].as_str());
        groups.push(AgentIdGroup { id: ids[k].clone(), locations });
        k = k + 1;
    }
    assert(group_ids(groups@) =~= sv);
    groups
}

/// `entries` with `path` recorded as the file they were found in.
fn with_path(entries: Vec<AgentContractEntry>, path: &str) -> (r: Vec<AgentContractEntry>)
    ensures
        r@.len() == entries@.len(),
        forall|i: int| 0 <= i < r@.len() ==> (#[trigger] r@[i])@ == (EntryView { path: path@, ..entries@[i]@ }),
{
    let mut out: Vec<AgentContractEntry> = Vec::new();
    let mut i: usize = 0;
    while i < entries.len()
        invariant
            i <= entries@.len(),
            out@.len() == i,
            forall|t: int| 0 <= t < i ==> (#[trigger] out@[t])@ == (EntryView { path: path@, ..entries@[t]@ }),
        decreases entries@.len() - i,
    {
        let e = &entries[i];
        let copy = AgentContractEntry {
            id: e.id.clone(),
            role: e.role.clone(),
            actions: copy_strings(&e.actions),
            path: path.to_owned(),
            line: e.line,
            kind: e.kind,
        };
        out.push(copy);
        i = i + 1;
    }
    out
}

fn copy_strings(v: &Vec<String>) -> (r: Vec<String>)
    ensures
        string_views(r@) == string_views(v@),
{
    let mut out: Vec<String> = Vec::new();
    let mut i: usize = 0;
    while i < v.len()
        invariant
            i <= v@.len(),
            string_views(out@) == string_views(v@).subrange(0, i as int),
        decreases v@.len() - i,
    {
        let ghost before = string_views(out@);
        out.push(v[i].clone());
        assert(string_views(out@) =~= before.push(v@[i as int]@));
        assert(string_views(out@) =~= string_views(v@).subrange(0, i + 1));
        i = i + 1;
    }
    assert(string_views(v@).subrange(0, v@.len() as int) =~= string_views(v@));
    out
}

/// The entries of all files, each carrying the path of its file, in the
/// order of the files.
pub open spec fn all_entries(files: Seq<(Seq<char>, Seq<EntryView>)>) -> Seq<EntryView>
    decreases files.len(),
{
    if files.len() == 0 {
        Seq::empty()
    } else {
        all_entries(files.drop_last()) + files.last().1.map_values(
            |e: EntryView| EntryView { path: files.last().0, ..e },
        )
    }
}

/// The identifiers of the entries, in order.
pub open spec fn entry_ids(es: Seq<EntryView>) -> Seq<Seq<char>> {
    es.map_values(|e: EntryView| e.id)
}

/// The scanned declarations of one file.
#[derive(Debug, Clone)]
pub struct ScannedFile {
    pub path: String,
    pub entries: Vec<AgentContractEntry>,
}

/// The files as mathematical values.
pub open spec fn scanned_views(files: Seq<ScannedFile>) -> Seq<(Seq<char>, Seq<EntryView>)> {
    files.map_values(|f: ScannedFile| (f.path@, entry_views(f.entries@)))
}

/// Whether each identifier is declared by exactly one of the entries.
pub open spec fn unique_ids(es: Seq<EntryView>) -> bool {
    forall|i: int, j: int| 0 <= i < j < es.len() ==> (#[trigger] es[i]).id != (#[trigger] es[j]).id
}

/// The contract of a set of scanned files: all their declarations, each
/// with the path of its file, sorted by identifier; or the report of the
/// identifiers that are declared more than once.
pub fn assemble_contract(files: Vec<ScannedFile>) -> (r: Result<AgentContract, String>)
    ensures
        r is Ok <==> (forall|id: Seq<char>| !#[trigger] is_duplicated(all_entries(scanned_views(files@)), id)),
        match r {
            Ok(c) => {
                let es = all_entries(scanned_views(files@));
                &&& forall|id: Seq<char>| !#[trigger] is_duplicated(es, id)
                &&& ascending(entry_ids(entry_views(c.elements@)))
                &&& entry_views(c.elements@).to_multiset() == es.to_multiset()
            },
            Err(m) => exists|d: Seq<Seq<char>>|
                ascending(d) && (forall|id: Seq<char>|
                    d.contains(id) <==> #[trigger] is_duplicated(all_entries(scanned_views(files@)), id))
                    && m@ == #[trigger] duplicate_report(all_entries(scanned_views(files@)), d),
        },
{
    let ghost fv = scanned_views(files@);
    let mut elements: Vec<AgentContractEntry> = Vec::new();
    let mut f: usize = 0;
    while f < files.len()
        invariant
            fv == scanned_views(files@),
            f <= files@.len(),
            entry_views(elements@) == all_entries(fv.subrange(0, f as int)),
        decreases files@.len() - f,
    {
        let ghost before = entry_views(elements@);
        let tagged = with_path(copy_entries(&files[f].entries), files[f].path.as_str());
        let mut tagged = tagged;
        let ghost tv = entry_views(tagged@);
        elements.append(&mut tagged);
        proof {
            let pre = fv.subrange(0, f + 1);
            assert(pre.drop_last() =~= fv.subrange(0, f as int));
            assert(tv =~= pre.last().1.map_values(|e: EntryView| EntryView { path: pre.last().0, ..e }));
            assert(entry_views(elements@) =~= before + tv);
        }
        f = f + 1;
    }
    assert(fv.subrange(0, fv.len() as int) =~= fv);
    let ghost es = entry_views(elements@);
    reject_duplicates(&elements)?;
    let ids = sorted_ids(&elements);
    let ghost sv = string_views(ids@);
    let mut sorted: Vec<AgentContractEntry> = Vec::new();
    let ghost mut picked: Seq<int> = Seq::empty();
    let mut k: usize = 0;
    while k < ids.len()
        invariant
            es == entry_views(elements@),
            sv == string_views(ids@),
            ascending(sv),
            forall|x: Seq<char>|
                sv.contains(x) <==> (exists|i: int| 0 <= i < es.len() && (#[trigger] es[i]).id == x),
            forall|id: Seq<char>| !#[trigger] is_duplicated(es, id),
            k <= ids@.len(),
            sorted@.len() == k,
            picked.len() == k,
            forall|t: int| 0 <= t < k ==> 0 <= #[trigger] picked[t] < es.len() && es[picked[t]] == entry_views(sorted@)[t] && es[picked[t]].id == sv[t],
        decreases ids@.len() - k,
    {
        proof {
            assert(sv.contains(sv[k as int]));
            assert(ids@[k as int]@ == sv[k as int]);
        }
        let i = first_entry(&elements, ids[k].as_str());
        let e = copy_entry(&elements[i]);
        sorted.push(e);
        proof {
            picked = picked.push(i as int);
        }
        k = k + 1;
    }
    let ghost ev = entry_views(sorted@);
    proof {
        assert forall|t: int| 0 <= t < ev.len() implies ev[t].id == sv[t] by {
            assert(es[picked[t]] == ev[t]);
        }
        assert(entry_ids(ev) =~= sv);
        lemma_unique_when_not_duplicated(es);
        // `picked` is a bijection between positions of `sorted` and of `es`.
        assert forall|t: int, u: int| 0 <= t < u < k implies picked[t] != picked[u] by {
            assert(sv[t] != sv[u]);
        }
        assert forall|i: int| 0 <= i < es.len() implies #[trigger] picks(picked, i) by {
            assert(sv.contains(es[i].id));
            let t = choose|t: int| 0 <= t < sv.len() && sv[t] == es[i].id;
            assert(es[picked[t]].id == es[i].id);
            assert(picked[t] == i ==> picks(picked, i));
            if picked[t] != i {
                if picked[t] < i {
                    assert(es[picked[t]].id != es[i].id);
                } else {
                    assert(es[i].id != es[picked[t]].id);
                }
            }
        }
        lemma_permutation_multiset(es, ev, picked);
    }
    Ok(AgentContract { elements: sorted })
}

fn copy_entry(e: &AgentContractEntry) -> (r: AgentContractEntry)
    ensures
        r@ == e@,
{
    AgentContractEntry {
        id: e.id.clone(),
        role: e.role.clone(),
        actions: copy_strings(&e.actions),
        path: e.path.clone(),
        line: e.line,
        kind: e.kind,
    }
}

fn copy_entries(v: &Vec<AgentContractEntry>) -> (r: Vec<AgentContractEntry>)
    ensures
        entry_views(r@) == entry_views(v@),
{
    let mut out: Vec<AgentContractEntry> = Vec::new();
    let mut i: usize = 0;
    while i < v.len()
        invariant
            i <= v@.len(),
            entry_views(out@) == entry_views(v@).subrange(0, i as int),
        decreases v@.len() - i,
    {
        let ghost before = entry_views(out@);
        out.push(copy_entry(&v[i]));
        assert(entry_views(out@) =~= before.push(v@[i as int]@));
        assert(entry_views(out@) =~= entry_views(v@).subrange(0, i + 1));
        i = i + 1;
    }
    assert(entry_views(v@).subrange(0, v@.len() as int) =~= entry_views(v@));
    out
}

fn first_entry(v: &Vec<AgentContractEntry>, id: &str) -> (r: usize)
    requires
        exists|i: int| 0 <= i < v@.len() && (#[trigger] entry_views(v@)[i]).id == id@,
    ensures
        r < v@.len(),
        entry_views(v@)[r as int].id == id@,
{
    let ghost es = entry_views(v@);
    let mut i: usize = 0;
    while i < v.len()
        invariant
            es == entry_views(v@),
            i <= v@.len(),
            forall|j: int| 0 <= j < i ==> (#[trigger] es[j]).id != id@,
            exists|j: int| 0 <= j < v@.len() && (#[trigger] es[j]).id == id@,
        decreases v@.len() - i,
    {
        if str_eq(v[i].id.as_str(), id) {
            return i;
        }
        i = i + 1;
    }
    proof {
        let j = choose|j: int| 0 <= j < v@.len() && (#[trigger] es[j]).id == id@;
        assert(es[j].id != id@);
    }
    0
}

/// When no identifier is declared twice, no two entries share one.
pub proof fn lemma_unique_when_not_duplicated(es: Seq<EntryView>)
    requires
        forall|id: Seq<char>| !#[trigger] is_duplicated(es, id),
    ensures
        unique_ids(es),
{
    assert forall|i: int, j: int| 0 <= i < j < es.len() implies (#[trigger] es[i]).id != (#[trigger] es[j]).id by {
        if es[i].id == es[j].id {
            let id = es[i].id;
            lemma_two_in_filter(es, id, i, j);
            assert(is_duplicated(es, id));
        }
    }
}

proof fn lemma_two_in_filter(es: Seq<EntryView>, id: Seq<char>, i: int, j: int)
    requires
        0 <= i < j < es.len(),
        es[i].id == id,
        es[j].id == id,
    ensures
        es.filter(declares(id)).len() > 1,
    decreases es.len(),
{
    let last = es.len() - 1;
    es.drop_last().lemma_filter_push(es.last(), declares(id));
    assert(es.drop_last().push(es.last()) =~= es);
    if j < last {
        assert(es.drop_last()[i] == es[i]);
        assert(es.drop_last()[j] == es[j]);
        lemma_two_in_filter(es.drop_last(), id, i, j);
    } else {
        assert(es.drop_last()[i] == es[i]);
        es.drop_last().lemma_filter_contains(declares(id), i);
        assert(es.drop_last().filter(declares(id)).len() > 0);
    }
}

/// Whether some entry of `p` is `i`.
pub open spec fn picks(p: Seq<int>, i: int) -> bool {
    exists|t: int| 0 <= t < p.len() && #[trigger] p[t] == i
}

/// A sequence that picks every position of `a` exactly once has the same
/// elements as `a`.
pub proof fn lemma_permutation_multiset(a: Seq<EntryView>, b: Seq<EntryView>, p: Seq<int>)
    requires
        p.len() == b.len(),
        forall|t: int| 0 <= t < p.len() ==> 0 <= #[trigger] p[t] < a.len() && a[p[t]] == b[t],
        forall|t: int, u: int| 0 <= t < u < p.len() ==> p[t] != p[u],
        forall|i: int| 0 <= i < a.len() ==> #[trigger] picks(p, i),
    ensures
        b.to_multiset() == a.to_multiset(),
    decreases a.len(),
{
    broadcast use vstd::seq_lib::group_to_multiset_ensures;
    if a.len() == 0 {
        if b.len() > 0 {
            assert(0 <= p[0] < a.len());
        }
        assert(b =~= Seq::<EntryView>::empty());
    } else {
        let last = a.len() - 1;
        assert(picks(p, last));
        let t = choose|t: int| 0 <= t < p.len() && #[trigger] p[t] == last;
        let b2 = b.remove(t);
        let p2 = p.remove(t);
        assert forall|s: int| 0 <= s < p2.len() implies 0 <= #[trigger] p2[s] < a.drop_last().len() && a.drop_last()[p2[s]] == b2[s] by {
            if s < t {
                assert(p2[s] == p[s]);
                assert(p[s] != p[t]);
            } else {
                assert(p2[s] == p[s + 1]);
                assert(p[s + 1] != p[t]);
            }
        }
        assert forall|s: int, u: int| 0 <= s < u < p2.len() implies p2[s] != p2[u] by {
            if s < t {
                if u < t {
                } else {
                    assert(p2[u] == p[u + 1]);
                }
            } else {
                assert(p2[s] == p[s + 1]);
                assert(p2[u] == p[u + 1]);
            }
        }
        assert forall|i: int| 0 <= i < a.drop_last().len() implies #[trigger] picks(p2, i) by {
            assert(picks(p, i));
            let s = choose|s: int| 0 <= s < p.len() && #[trigger] p[s] == i;
            assert(s != t);
            if s < t {
                assert(p2[s] == i);
            } else {
                assert(p2[s - 1] == i);
            }
        }
        lemma_permutation_multiset(a.drop_last(), b2, p2);
        assert(b[t] == a[last]);
        vstd::seq_lib::to_multiset_remove(b, t);
        assert(a.drop_last().push(a.last()) =~= a);
        vstd::seq_lib::to_multiset_build(a.drop_last(), a.last());
    }
}

} // verus!
