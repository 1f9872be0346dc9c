use vstd::prelude::*;

verus! {

/// Unicode `White_Space` code points, which `char::is_whitespace` recognises.
pub open spec fn is_ws(c: char) -> bool {
    ||| '\u{0009}' <= c <= '\u{000D}'
    ||| c == ' '
    ||| c == '\u{0085}'
    ||| c == '\u{00A0}'
    ||| c == '\u{1680}'
    ||| '\u{2000}' <= c <= '\u{200A}'
    ||| c == '\u{2028}'
    ||| c == '\u{2029}'
    ||| c == '\u{202F}'
    ||| c == '\u{205F}'
    ||| c == '\u{3000}'
}

/// Executable whitespace test, agreeing with `is_ws`.
pub fn is_whitespace(c: char) -> (r: bool)
    ensures
        r == is_ws(c),
{
    ('\u{0009}' <= c && c <= '\u{000D}') || c == ' ' || c == '\u{0085}' || c == '\u{00A0}'
        || c == '\u{1680}' || ('\u{2000}' <= c && c <= '\u{200A}') || c == '\u{2028}'
        || c == '\u{2029}' || c == '\u{202F}' || c == '\u{205F}' || c == '\u{3000}'
}


/// What `str::trim_start` leaves of `s`: leading whitespace dropped.
pub open spec fn trim_start(s: Seq<char>) -> Seq<char>
    decreases s.len(),
{
    if s.len() > 0 && is_ws(s[0]) {
        trim_start(s.drop_first())
    } else {
        s
    }
}

/// What `str::trim_end` leaves of `s`: trailing whitespace dropped.
pub open spec fn trim_end(s: Seq<char>) -> Seq<char>
    decreases s.len(),
{
    if s.len() > 0 && is_ws(s.last()) {
        trim_end(s.drop_last())
    } else {
        s
    }
}

/// What `str::trim` leaves of `s`.
pub open spec fn trimmed(s: Seq<char>) -> Seq<char> {
    trim_end(trim_start(s))
}

/// The characters of `s`, in order.
pub fn chars_of(s: &str) -> (v: Vec<char>)
    ensures
        v@ == s@,
{
    let n = s.unicode_len();
    let mut v: Vec<char> = Vec::new();
    let mut i: usize = 0;
    while i < n
        invariant
            n == s@.len(),
            i <= n,
            v@ == s@.take(i as int),
        decreases n - i,
    {
        v.push(s.get_char(i));
        i = i + 1;
        assert(v@ =~= s@.take(i as int));
    }
    assert(v@ =~= s@);
    v
}

/// The bounds `(start, end)` in `v` of the text that trimming keeps.
pub fn trim_bounds(v: &Vec<char>) -> (r: (usize, usize))
    ensures
        r.0 <= r.1 <= v@.len(),
        v@.subrange(r.0 as int, r.1 as int) == trimmed(v@),
{
    let n = v.len();
    let mut i: usize = 0;
    assert(v@.skip(0) =~= v@);
    while i < n && is_whitespace(v[i])
        invariant
            n == v@.len(),
            i <= n,
            trim_start(v@) == trim_start(v@.skip(i as int)),
        decreases n - i,
    {
        assert(v@.skip(i as int).drop_first() =~= v@.skip(i + 1));
        i = i + 1;
    }
    assert(trim_start(v@) == v@.skip(i as int));
    let mut j: usize = n;
    assert(v@.skip(i as int) =~= v@.subrange(i as int, j as int));
    while j > i && is_whitespace(v[j - 1])
        invariant
            n == v@.len(),
            i <= j <= n,
            trimmed(v@) == trim_end(v@.subrange(i as int, j as int)),
        decreases j,
    {
        assert(v@.subrange(i as int, j as int).drop_last() =~= v@.subrange(i as int, j - 1));
        j = j - 1;
    }
    (i, j)
}

/// `str::trim`: `s` without leading and trailing whitespace.
pub fn trim(s: &str) -> (r: &str)
    ensures
        r@ == trimmed(s@),
{
    let v = chars_of(s);
    let (i, j) = trim_bounds(&v);
    s.substring_char(i, j)
}


proof fn lemma_trim_start_head(s: Seq<char>)
    ensures
        trim_start(s).len() > 0 ==> !is_ws(trim_start(s)[0]),
    decreases s.len(),
{
    if s.len() > 0 && is_ws(s[0]) {
        lemma_trim_start_head(s.drop_first());
    }
}

proof fn lemma_trim_end_prefix(s: Seq<char>)
    ensures
        trim_end(s).len() <= s.len(),
        trim_end(s) == s.take(trim_end(s).len() as int),
        trim_end(s).len() > 0 ==> !is_ws(trim_end(s).last()),
    decreases s.len(),
{
    if s.len() > 0 && is_ws(s.last()) {
        lemma_trim_end_prefix(s.drop_last());
        assert(s.drop_last().take(trim_end(s).len() as int) =~= s.take(trim_end(s).len() as int));
    } else {
        assert(s.take(s.len() as int) =~= s);
    }
}

/// Trimming is idempotent: trimming an already trimmed text changes nothing.
pub proof fn lemma_trim_idempotent(s: Seq<char>)
    ensures
        trimmed(trimmed(s)) == trimmed(s),
{
    let u = trim_start(s);
    let t = trim_end(u);
    lemma_trim_start_head(s);
    lemma_trim_end_prefix(u);
    if t.len() > 0 {
        assert(t[0] == u[0]);
    }
    assert(trim_start(t) == t);
    assert(trim_end(t) == t);
}


/// Index of the first `' '` in `t`, or `t.len()` when there is none.
pub open spec fn first_space(t: Seq<char>) -> nat
    decreases t.len(),
{
    if t.len() == 0 || t[0] == ' ' {
        0
    } else {
        1 + first_space(t.drop_first())
    }
}

proof fn lemma_first_space_bound(t: Seq<char>)
    ensures
        first_space(t) <= t.len(),
        first_space(t) < t.len() ==> t[first_space(t) as int] == ' ',
        forall|k: int| 0 <= k < first_space(t) ==> t[k] != ' ',
    decreases t.len(),
{
    if t.len() > 0 && t[0] != ' ' {
        lemma_first_space_bound(t.drop_first());
        assert forall|k: int| 0 <= k < first_space(t) implies t[k] != ' ' by {
            if k > 0 {
                assert(t[k] == t.drop_first()[k - 1]);
            }
        }
    }
}

/// A line typed by a player, as the session reads it.
pub enum Command {
    /// `/list`: list the rooms.
    List,
    /// `/join <room>`.
    Join(String),
    /// `/join` without a room name.
    JoinWithoutRoom,
    /// `/name <name>`.
    Name(String),
    /// `/name` without a name.
    NameWithoutName,
    /// Any other line starting with `/`; holds the trimmed line.
    Unknown(String),
    /// A line that is not a command; holds the trimmed line.
    Chat(String),
}

/// `Command` with its texts as character sequences.
pub enum CommandView {
    List,
    Join(Seq<char>),
    JoinWithoutRoom,
    Name(Seq<char>),
    NameWithoutName,
    Unknown(Seq<char>),
    Chat(Seq<char>),
}

impl View for Command {
    type V = CommandView;

    open spec fn view(&self) -> CommandView {
        match self {
            Command::List => CommandView::List,
            Command::Join(r) => CommandView::Join(r@),
            Command::JoinWithoutRoom => CommandView::JoinWithoutRoom,
            Command::Name(n) => CommandView::Name(n@),
            Command::NameWithoutName => CommandView::NameWithoutName,
            Command::Unknown(t) => CommandView::Unknown(t@),
            Command::Chat(t) => CommandView::Chat(t@),
        }
    }
}

/// The word that opens a command line: everything before the first space.
pub open spec fn command_word(t: Seq<char>) -> Seq<char> {
    t.take(first_space(t) as int)
}

/// What follows the first space of a command line, if there is a space.
pub open spec fn command_argument(t: Seq<char>) -> Option<Seq<char>> {
    if first_space(t) < t.len() {
        Some(t.skip(first_space(t) as int + 1))
    } else {
        None
    }
}

/// How a line typed by a player is read: it is trimmed; a line that starts
/// with `/` is split at its first space into a command word and an argument.
pub open spec fn command_of(s: Seq<char>) -> CommandView {
    let t = trimmed(s);
    if t.len() > 0 && t[0] == '/' {
        let word = command_word(t);
        let arg = command_argument(t);
        if word == "/list"@ {
            CommandView::List
        } else if word == "/join"@ {
            match arg {
                Some(r) => CommandView::Join(r),
                None => CommandView::JoinWithoutRoom,
            }
        } else if word == "/name"@ {
            match arg {
                Some(n) => CommandView::Name(n),
                None => CommandView::NameWithoutName,
            }
        } else {
            CommandView::Unknown(t)
        }
    } else {
        CommandView::Chat(t)
    }
}

/// Index of the first `' '` in `v[from..to]`, or `to` when there is none.
fn first_space_in(v: &Vec<char>, from: usize, to: usize) -> (k: usize)
    requires
        from <= to <= v@.len(),
    ensures
        k == from + first_space(v@.subrange(from as int, to as int)),
{
    let ghost t = v@.subrange(from as int, to as int);
    let mut k: usize = from;
    assert(t.skip(0) =~= t);
    while k < to && v[k] != ' '
        invariant
            from <= k <= to <= v@.len(),
            t == v@.subrange(from as int, to as int),
            first_space(t) == (k - from) + first_space(t.skip(k - from)),
        decreases to - k,
    {
        assert(t.skip(k - from).drop_first() =~= t.skip(k - from + 1));
        k = k + 1;
    }
    k
}

/// Whether `v[from..to]` spells out `lit`.
fn spells(v: &Vec<char>, from: usize, to: usize, lit: &str) -> (r: bool)
    requires
        from <= to <= v@.len(),
    ensures
        r == (v@.subrange(from as int, to as int) == lit@),
{
    let n = lit.unicode_len();
    if to - from != n {
        return false;
    }
    let mut i: usize = 0;
    while i < n
        invariant
            n == lit@.len(),
            to - from == n,
            from <= to <= v@.len(),
            i <= n,
            forall|k: int| 0 <= k < i ==> v@[from + k] == lit@[k],
        decreases n - i,
    {
        if v[from + i] != lit.get_char(i) {
            assert(v@.subrange(from as int, to as int)[i as int] != lit@[i as int]);
            return false;
        }
        i = i + 1;
    }
    assert(v@.subrange(from as int, to as int) =~= lit@);
    true
}

/// Reads a line typed by a player as a command.
pub fn parse_command(s: &str) -> (c: Command)
    ensures
        c@ == command_of(s@),
{
    let v = chars_of(s);
    let (i, j) = trim_bounds(&v);
    let ghost t = trimmed(s@);
    let line = s.substring_char(i, j);
    if i < j && v[i] == '/' {
        let k = first_space_in(&v, i, j);
        proof {
            lemma_first_space_bound(t);
            assert(v@.subrange(i as int, k as int) =~= command_word(t));
        }
        let has_arg = k < j;
        if spells(&v, i, k, "/list") {
            Command::List
        } else if spells(&v, i, k, "/join") {
            if has_arg {
                let arg = s.substring_char(k + 1, j);
                assert(arg@ =~= t.skip(first_space(t) as int + 1));
                Command::Join(arg.to_owned())
            } else {
                Command::JoinWithoutRoom
            }
        } else if spells(&v, i, k, "/name") {
            if has_arg {
                let arg = s.substring_char(k + 1, j);
                assert(arg@ =~= t.skip(first_space(t) as int + 1));
                Command::Name(arg.to_owned())
            } else {
                Command::NameWithoutName
            }
        } else {
            Command::Unknown(line.to_owned())
        }
    } else {
        Command::Chat(line.to_owned())
    }
}

/// Below U+0080 the whitespace characters are exactly the space and the
/// controls tab to carriage return: no letter, digit or punctuation mark is
/// whitespace.
pub proof fn lemma_ascii_whitespace(c: char)
    ensures
        c < '\u{80}' ==> (is_ws(c) <==> (c == ' ' || '\t' <= c <= '\r')),
        ('0' <= c <= '9' || 'a' <= c <= 'z' || 'A' <= c <= 'Z') ==> !is_ws(c),
        ('!' <= c <= '~') ==> !is_ws(c),
{
}

proof fn lemma_trim_start_split(s: Seq<char>) -> (k: int)
    ensures
        0 <= k <= s.len(),
        trim_start(s) == s.skip(k),
        forall|i: int| 0 <= i < k ==> is_ws(#[trigger] s[i]),
        k < s.len() ==> !is_ws(s[k]),
    decreases s.len(),
{
    if s.len() > 0 && is_ws(s[0]) {
        let j = lemma_trim_start_split(s.drop_first());
        assert(s.drop_first().skip(j) =~= s.skip(j + 1));
        assert forall|i: int| 0 <= i < j + 1 implies is_ws(#[trigger] s[i]) by {
            if i > 0 {
                assert(s[i] == s.drop_first()[i - 1]);
            }
        }
        if j + 1 < s.len() {
            assert(s[j + 1] == s.drop_first()[j]);
        }
        j + 1
    } else {
        assert(s.skip(0) =~= s);
        0
    }
}

proof fn lemma_trim_end_split(s: Seq<char>) -> (m: int)
    ensures
        0 <= m <= s.len(),
        trim_end(s) == s.take(m),
        forall|i: int| m <= i < s.len() ==> is_ws(#[trigger] s[i]),
        m > 0 ==> !is_ws(s[m - 1]),
    decreases s.len(),
{
    if s.len() > 0 && is_ws(s.last()) {
        let j = lemma_trim_end_split(s.drop_last());
        assert(s.drop_last().take(j) =~= s.take(j));
        assert forall|i: int| j <= i < s.len() implies is_ws(#[trigger] s[i]) by {
            if i < s.len() - 1 {
                assert(s[i] == s.drop_last()[i]);
            }
        }
        if j > 0 {
            assert(s[j - 1] == s.drop_last()[j - 1]);
        }
        j
    } else {
        assert(s.take(s.len() as int) =~= s);
        s.len() as int
    }
}

/// Trimming cuts only whitespace, and only from the two ends: what it keeps
/// is one contiguous part of the line, whole, that neither starts nor ends
/// with whitespace, and everything cut off before and after it is
/// whitespace.
pub proof fn lemma_trim_cuts_only_whitespace_ends(s: Seq<char>)
    ensures
        exists|a: int, b: int|
            #![trigger s.subrange(a, b)]
            {
                &&& 0 <= a <= b <= s.len()
                &&& trimmed(s) == s.subrange(a, b)
                &&& forall|i: int| 0 <= i < a ==> is_ws(#[trigger] s[i])
                &&& forall|i: int| b <= i < s.len() ==> is_ws(#[trigger] s[i])
                &&& a < b ==> !is_ws(s[a]) && !is_ws(s[b - 1])
            },
{
    let k = lemma_trim_start_split(s);
    let u = s.skip(k);
    let m = lemma_trim_end_split(u);
    let a = k;
    let b = k + m;
    assert(u.take(m) =~= s.subrange(a, b));
    assert forall|i: int| b <= i < s.len() implies is_ws(#[trigger] s[i]) by {
        assert(s[i] == u[i - k]);
    }
    if a < b {
        assert(s[a] == u[0]);
        assert(s[b - 1] == u[m - 1]);
    }
    assert(trimmed(s) == s.subrange(a, b));
}

/// A line that neither starts nor ends with whitespace is left whole by
/// trimming.
pub proof fn lemma_trim_keeps_clean_line(s: Seq<char>)
    requires
        s.len() > 0 ==> !is_ws(s[0]) && !is_ws(s.last()),
    ensures
        trimmed(s) == s,
{
}

proof fn lemma_first_space_at(t: Seq<char>, k: int)
    requires
        0 <= k < t.len(),
        t[k] == ' ',
        forall|i: int| 0 <= i < k ==> t[i] != ' ',
    ensures
        first_space(t) == k,
    decreases k,
{
    if k > 0 {
        assert forall|i: int| 0 <= i < k - 1 implies t.drop_first()[i] != ' ' by {
            assert(t.drop_first()[i] == t[i + 1]);
        }
        lemma_first_space_at(t.drop_first(), k - 1);
    }
}

proof fn lemma_command_with_argument(word: Seq<char>, arg: Seq<char>)
    requires
        word.len() > 0,
        word[0] == '/',
        forall|i: int| 0 <= i < word.len() ==> word[i] != ' ',
        arg.len() > 0,
        !is_ws(arg[0]),
        !is_ws(arg.last()),
    ensures
        ({
            let t = word + seq![' '] + arg;
            &&& trimmed(t) == t
            &&& command_word(t) == word
            &&& command_argument(t) == Some(arg)
        }),
{
    let t = word + seq![' '] + arg;
    assert(t[0] == '/');
    assert(t.last() == arg.last());
    lemma_trim_keeps_clean_line(t);
    lemma_first_space_at(t, word.len() as int);
    assert(t.take(word.len() as int) =~= word);
    assert(t.skip(word.len() as int + 1) =~= arg);
}

/// `/join` followed by a space and a room name (one that neither starts nor
/// ends with whitespace) reads as joining exactly that room, spaces inside
/// the name included.
pub proof fn lemma_join_reads_whole_room_name(room: Seq<char>)
    requires
        room.len() > 0,
        !is_ws(room[0]),
        !is_ws(room.last()),
    ensures
        command_of("/join "@ + room) == CommandView::Join(room),
{
    reveal_strlit("/join ");
    reveal_strlit("/join");
    reveal_strlit("/list");
    assert("/join "@ =~= "/join"@ + seq![' ']);
    lemma_command_with_argument("/join"@, room);
    assert("/join"@[1] != "/list"@[1]);
}

/// `/name` followed by a space and a name (one that neither starts nor ends
/// with whitespace) reads as choosing exactly that name, spaces inside the
/// name included.
pub proof fn lemma_name_reads_whole_name(name: Seq<char>)
    requires
        name.len() > 0,
        !is_ws(name[0]),
        !is_ws(name.last()),
    ensures
        command_of("/name "@ + name) == CommandView::Name(name),
{
    reveal_strlit("/name ");
    reveal_strlit("/name");
    reveal_strlit("/join");
    reveal_strlit("/list");
    assert("/name "@ =~= "/name"@ + seq![' ']);
    lemma_command_with_argument("/name"@, name);
    assert("/name"@[1] != "/list"@[1]);
    assert("/name"@[1] != "/join"@[1]);
}

/// Reading a line as a command first trims it, so surrounding whitespace
/// never changes how a line is read.
pub proof fn lemma_command_ignores_surrounding_whitespace(s: Seq<char>)
    ensures
        command_of(trimmed(s)) == command_of(s),
{
    lemma_trim_idempotent(s);
}


/// How a player is shown in chat: by its name, or as `anon` without one.
pub open spec fn shown_name(name: Option<Seq<char>>) -> Seq<char> {
    match name {
        Some(n) => n,
        None => "anon"@,
    }
}

/// `shown_name` as a `String`.
pub fn shown_name_of(name: &Option<String>) -> (r: String)
    ensures
        r@ == shown_name(name.deep_view()),
{
    match name {
        Some(n) => n.clone(),
        None => "anon".to_owned(),
    }
}

/// `a` followed by `b`.
pub fn join_texts(a: &str, b: &str) -> (r: String)
    ensures
        r@ == a@ + b@,
{
    let mut r = a.to_owned();
    r.append(b);
    r
}

/// The announcement sent to everyone when a client joins a room.
pub open spec fn join_announcement(name: Option<Seq<char>>, room: Seq<char>) -> Seq<char> {
    shown_name(name) + " joined "@ + room
}

/// The text of a chat line as others see it: sender, colon, line.
pub open spec fn chat_line(name: Option<Seq<char>>, line: Seq<char>) -> Seq<char> {
    shown_name(name) + ": "@ + line
}


/// Name for the text that `{:?}` (`<str as Debug>::fmt`) writes for a text:
/// the text in double quotes, with quotes, backslashes and unprintable
/// characters escaped.
pub uninterp spec fn debug_text(s: Seq<char>) -> Seq<char>;

/// Whether every character of `s` is printable ASCII other than a double
/// quote or a backslash: the characters `{:?}` writes unescaped.
pub open spec fn is_plain_printable(s: Seq<char>) -> bool {
    forall|i: int| 0 <= i < s.len() ==> ' ' <= #[trigger] s[i] <= '~' && s[i] != '"' && s[i] != '\\'
}

/// Formats `s` with `{:?}`, through `<str as Debug>::fmt`. Claimed: the
/// result is `debug_text` of the text, and where the text holds only plain
/// printable ASCII it is the text between double quotes (std escapes only
/// quotes, backslashes and characters that are not printable).
#[verifier::external_body]
pub(crate) fn debug_quoted(s: &str) -> (r: String)
    ensures
        r@ == debug_text(s@),
        is_plain_printable(s@) ==> r@ == seq!['"'] + s@ + seq!['"'],
{
    format!("{:?}", s)
}

/// The answer to a line that starts with `/` but names no command.
pub open spec fn unknown_command_reply(line: Seq<char>) -> Seq<char> {
    "!!! unknown command: "@ + debug_text(line)
}

/// `unknown_command_reply` as a `String`.
pub fn unknown_command_reply_of(line: &str) -> (r: String)
    ensures
        r@ == unknown_command_reply(line@),
        is_plain_printable(line@) ==> r@ == "!!! unknown command: "@ + seq!['"'] + line@ + seq![
            '"',
        ],
{
    let quoted = debug_quoted(line);
    join_texts("!!! unknown command: ", quoted.as_str())
}

} // verus!
