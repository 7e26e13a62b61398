//! Facts about the machine: which system it runs, where the home directory
//! and the dotfiles repository are, and how to ask whether a command exists.
use vstd::prelude::*;
use vstd::string::*;
use crate::text::{cat3, is_ws, is_ws_char, join, owned, path_join, slice_chars, trim_quotes, unquote};
use crate::tools::{texts_view, Invocation, InvocationView};

verus! {

/// The systems the installer knows how to handle.
#[derive(Debug, Clone, Copy, PartialEq, Eq, Structural)]
pub enum Distro {
    Ubuntu,
    Debian,
    OpenSuse,
    Fedora,
    Arch,
    Macos,
    Other,
}

/// `cur` without one trailing carriage return.
pub open spec fn strip_cr(cur: Seq<char>) -> Seq<char> {
    if cur.len() > 0 && cur.last() == '\r' {
        cur.drop_last()
    } else {
        cur
    }
}

/// The lines of `s`, the current one begun as `cur`.
pub open spec fn lines_acc(s: Seq<char>, cur: Seq<char>) -> Seq<Seq<char>>
    decreases s.len(),
{
    if s.len() == 0 {
        if cur.len() > 0 {
            seq![cur]
        } else {
            seq![]
        }
    } else if s[0] == '\n' {
        seq![strip_cr(cur)] + lines_acc(s.drop_first(), seq![])
    } else {
        lines_acc(s.drop_first(), cur.push(s[0]))
    }
}

/// The lines of a text as `str::lines` gives them: split at each newline,
/// a carriage return before the newline removed, no empty line after a final
/// newline.
pub open spec fn text_lines(s: Seq<char>) -> Seq<Seq<char>> {
    lines_acc(s, seq![])
}

/// The words of `s`, the current one begun as `cur`.
pub open spec fn words_acc(s: Seq<char>, cur: Seq<char>) -> Seq<Seq<char>>
    decreases s.len(),
{
    if s.len() == 0 {
        if cur.len() > 0 {
            seq![cur]
        } else {
            seq![]
        }
    } else if is_ws(s[0]) {
        (if cur.len() > 0 {
            seq![cur]
        } else {
            seq![]
        }) + words_acc(s.drop_first(), seq![])
    } else {
        words_acc(s.drop_first(), cur.push(s[0]))
    }
}

/// The words of a text as `str::split_whitespace` gives them.
pub open spec fn text_words(s: Seq<char>) -> Seq<Seq<char>> {
    words_acc(s, seq![])
}

pub open spec fn has_prefix(s: Seq<char>, p: Seq<char>) -> bool {
    p.len() <= s.len() && s.take(p.len() as int) == p
}

pub open spec fn has_infix(s: Seq<char>, p: Seq<char>) -> bool {
    exists|k: int| 0 <= k && k + p.len() <= s.len() && #[trigger] s.subrange(k, k + p.len()) == p
}

/// The value of the last line that sets `key` (the text after the key).
pub open spec fn last_value(lines: Seq<Seq<char>>, key: Seq<char>) -> Option<Seq<char>>
    decreases lines.len(),
{
    if lines.len() == 0 {
        None
    } else if has_prefix(lines.last(), key) {
        Some(lines.last().skip(key.len() as int))
    } else {
        last_value(lines.drop_last(), key)
    }
}

/// The value of the first line that sets `key`.
pub open spec fn first_value(lines: Seq<Seq<char>>, key: Seq<char>) -> Option<Seq<char>>
    decreases lines.len(),
{
    if lines.len() == 0 {
        None
    } else if has_prefix(lines[0], key) {
        Some(lines[0].skip(key.len() as int))
    } else {
        first_value(lines.drop_first(), key)
    }
}

/// The unquoted value of a field, empty when no line sets it (the last line
/// that sets it counts).
pub open spec fn field(lines: Seq<Seq<char>>, key: Seq<char>) -> Seq<char> {
    match last_value(lines, key) {
        Some(v) => trim_quotes(v),
        None => seq![],
    }
}

/// The system named by an `ID` value.
pub open spec fn classify_id(id: Seq<char>) -> Option<Distro> {
    if id == "ubuntu"@ {
        Some(Distro::Ubuntu)
    } else if id == "debian"@ {
        Some(Distro::Debian)
    } else if has_prefix(id, "opensuse"@) || has_prefix(id, "suse"@) {
        Some(Distro::OpenSuse)
    } else if id == "fedora"@ {
        Some(Distro::Fedora)
    } else if id == "arch"@ || id == "archlinux"@ {
        Some(Distro::Arch)
    } else {
        None
    }
}

/// The system named by one word of an `ID_LIKE` value.
pub open spec fn classify_like(w: Seq<char>) -> Option<Distro> {
    if w == "ubuntu"@ {
        Some(Distro::Ubuntu)
    } else if w == "debian"@ {
        Some(Distro::Debian)
    } else if w == "fedora"@ {
        Some(Distro::Fedora)
    } else if w == "arch"@ || w == "archlinux"@ {
        Some(Distro::Arch)
    } else if has_infix(w, "suse"@) {
        Some(Distro::OpenSuse)
    } else {
        None
    }
}

/// The system named by the first word of `ws` that names one.
pub open spec fn first_like(ws: Seq<Seq<char>>) -> Option<Distro>
    decreases ws.len(),
{
    if ws.len() == 0 {
        None
    } else {
        match classify_like(ws[0]) {
            Some(d) => Some(d),
            None => first_like(ws.drop_first()),
        }
    }
}

/// The system: macOS when running there; otherwise the one `ID` names, else
/// the first one `ID_LIKE` names, else `Other`.
pub open spec fn detected(on_macos: bool, os_release: Seq<char>) -> Distro {
    if on_macos {
        Distro::Macos
    } else {
        let lines = text_lines(os_release);
        match classify_id(field(lines, "ID="@)) {
            Some(d) => d,
            None => match first_like(text_words(field(lines, "ID_LIKE="@))) {
                Some(d) => d,
                None => Distro::Other,
            },
        }
    }
}

/// The name shown for a system when `/etc/os-release` gives none.
pub open spec fn fallback_name(d: Distro) -> Seq<char> {
    match d {
        Distro::Ubuntu => "Ubuntu"@,
        Distro::Debian => "Debian GNU/Linux"@,
        Distro::OpenSuse => "openSUSE Tumbleweed"@,
        Distro::Fedora => "Fedora Linux"@,
        Distro::Arch => "Arch Linux"@,
        Distro::Macos => "macOS"@,
        Distro::Other => "Unknown"@,
    }
}

/// The name of the system: the first `PRETTY_NAME`, unquoted, else the
/// fallback name of the detected system.
pub open spec fn system_name(on_macos: bool, os_release: Seq<char>) -> Seq<char> {
    match first_value(text_lines(os_release), "PRETTY_NAME="@) {
        Some(v) => trim_quotes(v),
        None => fallback_name(detected(on_macos, os_release)),
    }
}

proof fn lemma_push_concat<A>(a: Seq<A>, x: A, b: Seq<A>)
    ensures
        a.push(x) + b == a + (seq![x] + b),
{
    assert(a.push(x) + b =~= a + (seq![x] + b));
}

/// The lines of a text.
pub fn split_lines(s: &str) -> (r: Vec<String>)
    ensures
        texts_view(r@) == text_lines(s@),
{
    let n = s.unicode_len();
    let mut out: Vec<String> = Vec::new();
    let mut start: usize = 0;
    let mut i: usize = 0;
    proof {
        assert(s@.skip(0) =~= s@);
        assert(s@.subrange(0, 0) =~= Seq::<char>::empty());
    }
    while i < n
        invariant
            n == s@.len(),
            start <= i <= n,
            texts_view(out@) + lines_acc(s@.skip(i as int), s@.subrange(start as int, i as int))
                == text_lines(s@),
        decreases n - i,
    {
        let c = s.get_char(i);
        let ghost cur = s@.subrange(start as int, i as int);
        let ghost rest = s@.skip(i as int);
        proof {
            assert(rest[0] == c);
            assert(rest.drop_first() =~= s@.skip(i + 1));
        }
        if c == '\n' {
            let end = if i > start && s.get_char(i - 1) == '\r' {
                i - 1
            } else {
                i
            };
            let line = slice_chars(s, start, end);
            proof {
                assert(line@ == strip_cr(cur)) by {
                    if i > start && s@[i - 1] == '\r' {
                        assert(cur.drop_last() =~= s@.subrange(start as int, i - 1));
                    }
                }
                lemma_push_concat(texts_view(out@), line@, lines_acc(s@.skip(i + 1), seq![]));
            }
            let ghost before = out@;
            out.push(line);
            proof {
                assert(texts_view(out@) =~= texts_view(before).push(line@));
            }
            start = i + 1;
            proof {
                assert(s@.subrange(start as int, i + 1) =~= Seq::<char>::empty());
            }
        } else {
            proof {
                assert(cur.push(c) =~= s@.subrange(start as int, i + 1));
            }
        }
        i = i + 1;
    }
    let ghost cur = s@.subrange(start as int, n as int);
    if start < n {
        let ghost before = out@;
        out.push(slice_chars(s, start, n));
        proof {
            assert(texts_view(out@) =~= texts_view(before).push(cur));
            assert(texts_view(out@) =~= texts_view(before) + seq![cur]);
        }
    } else {
        proof {
            assert(texts_view(out@) + Seq::<Seq<char>>::empty() =~= texts_view(out@));
        }
    }
    out
}

/// The words of a text, as `str::split_whitespace` gives them.
pub fn split_words(s: &str) -> (r: Vec<String>)
    ensures
        texts_view(r@) == text_words(s@),
{
    let n = s.unicode_len();
    let mut out: Vec<String> = Vec::new();
    let mut start: usize = 0;
    let mut i: usize = 0;
    proof {
        assert(s@.skip(0) =~= s@);
        assert(s@.subrange(0, 0) =~= Seq::<char>::empty());
    }
    while i < n
        invariant
            n == s@.len(),
            start <= i <= n,
            texts_view(out@) + words_acc(s@.skip(i as int), s@.subrange(start as int, i as int))
                == text_words(s@),
        decreases n - i,
    {
        let c = s.get_char(i);
        let ghost cur = s@.subrange(start as int, i as int);
        let ghost rest = s@.skip(i as int);
        proof {
            assert(rest[0] == c);
            assert(rest.drop_first() =~= s@.skip(i + 1));
        }
        if is_ws_char(c) {
            if i > start {
                let w = slice_chars(s, start, i);
                let ghost before = out@;
                out.push(w);
                proof {
                    assert(texts_view(out@) =~= texts_view(before).push(cur));
                    lemma_push_concat(texts_view(before), cur, words_acc(s@.skip(i + 1), seq![]));
                }
            } else {
                proof {
                    assert(seq![] + words_acc(s@.skip(i + 1), seq![]) =~= words_acc(
                        s@.skip(i + 1),
                        seq![],
                    ));
                }
            }
            start = i + 1;
            proof {
                assert(s@.subrange(start as int, i + 1) =~= Seq::<char>::empty());
            }
        } else {
            proof {
                assert(cur.push(c) =~= s@.subrange(start as int, i + 1));
            }
        }
        i = i + 1;
    }
    let ghost cur = s@.subrange(start as int, n as int);
    if start < n {
        let ghost before = out@;
        out.push(slice_chars(s, start, n));
        proof {
            assert(texts_view(out@) =~= texts_view(before) + seq![cur]);
        }
    } else {
        proof {
            assert(texts_view(out@) + Seq::<Seq<char>>::empty() =~= texts_view(out@));
        }
    }
    out
}

/// Whether `s` begins with `p`.
pub fn starts_with(s: &str, p: &str) -> (r: bool)
    ensures
        r == has_prefix(s@, p@),
{
    let n = s.unicode_len();
    let m = p.unicode_len();
    if m > n {
        return false;
    }
    let mut i: usize = 0;
    while i < m
        invariant
            n == s@.len(),
            m == p@.len(),
            m <= n,
            i <= m,
            forall|k: int| 0 <= k < i ==> s@[k] == p@[k],
        decreases m - i,
    {
        if s.get_char(i) != p.get_char(i) {
            proof {
                assert(s@.take(m as int)[i as int] != p@[i as int]);
            }
            return false;
        }
        i = i + 1;
    }
    proof {
        assert(s@.take(m as int) =~= p@);
    }
    true
}

/// Whether `p` occurs somewhere in `s`.
pub fn contains_text(s: &str, p: &str) -> (r: bool)
    ensures
        r == has_infix(s@, p@),
{
    let n = s.unicode_len();
    let m = p.unicode_len();
    if m > n {
        proof {
            assert forall|k: int| 0 <= k && k + m <= n implies #[trigger] s@.subrange(k, k + m)
                != p@ by {}
        }
        return false;
    }
    let mut k: usize = 0;
    let last = n - m;
    while k <= last
        invariant
            n == s@.len(),
            m == p@.len(),
            m <= n,
            last == n - m,
            k <= last + 1,
            forall|j: int| 0 <= j < k ==> #[trigger] s@.subrange(j, j + m) != p@,
        decreases last + 1 - k,
    {
        let mut i: usize = 0;
        let mut same = true;
        while i < m
            invariant
                n == s@.len(),
                m == p@.len(),
                k + m <= n,
                i <= m,
                same ==> forall|t: int| 0 <= t < i ==> s@[k + t] == p@[t],
                !same ==> s@.subrange(k as int, k + m) != p@,
            decreases m - i,
        {
            if same && s.get_char(k + i) != p.get_char(i) {
                same = false;
                proof {
                    assert(s@.subrange(k as int, k + m)[i as int] != p@[i as int]);
                }
            }
            i = i + 1;
        }
        if same {
            proof {
                assert(s@.subrange(k as int, k + m) =~= p@);
            }
            return true;
        }
        if k == last {
            return false;
        }
        k = k + 1;
    }
    false
}

fn same_text(a: &str, b: &str) -> (r: bool)
    ensures
        r == (a@ == b@),
{
    let x = owned(a);
    let y = owned(b);
    x == y
}

/// The system an `ID` value names.
pub fn classify_id_text(id: &str) -> (r: Option<Distro>)
    ensures
        r == classify_id(id@),
{
    if same_text(id, "ubuntu") {
        Some(Distro::Ubuntu)
    } else if same_text(id, "debian") {
        Some(Distro::Debian)
    } else if starts_with(id, "opensuse") || starts_with(id, "suse") {
        Some(Distro::OpenSuse)
    } else if same_text(id, "fedora") {
        Some(Distro::Fedora)
    } else if same_text(id, "arch") || same_text(id, "archlinux") {
        Some(Distro::Arch)
    } else {
        None
    }
}

/// The system one word of an `ID_LIKE` value names.
pub fn classify_like_text(w: &str) -> (r: Option<Distro>)
    ensures
        r == classify_like(w@),
{
    if same_text(w, "ubuntu") {
        Some(Distro::Ubuntu)
    } else if same_text(w, "debian") {
        Some(Distro::Debian)
    } else if same_text(w, "fedora") {
        Some(Distro::Fedora)
    } else if same_text(w, "arch") || same_text(w, "archlinux") {
        Some(Distro::Arch)
    } else if contains_text(w, "suse") {
        Some(Distro::OpenSuse)
    } else {
        None
    }
}

/// The unquoted value of the last line of `lines` that sets `key`, empty
/// when none does.
fn field_of(lines: &Vec<String>, key: &str) -> (r: String)
    ensures
        r@ == field(texts_view(lines@), key@),
{
    let ghost ls = texts_view(lines@);
    let mut value = String::new();
    let n = lines.len();
    let mut i: usize = 0;
    proof {
        assert(ls.take(0) =~= Seq::<Seq<char>>::empty());
    }
    while i < n
        invariant
            n == lines@.len(),
            ls == texts_view(lines@),
            i <= n,
            value@ == field(ls.take(i as int), key@),
        decreases n - i,
    {
        let line = lines[i].as_str();
        proof {
            assert(ls.take(i + 1).drop_last() =~= ls.take(i as int));
            assert(ls.take(i + 1).last() == line@);
        }
        if starts_with(line, key) {
            let k = key.unicode_len();
            let rest = slice_chars(line, k, line.unicode_len());
            proof {
                assert(rest@ =~= line@.skip(k as int));
            }
            value = unquote(rest.as_str());
        }
        i = i + 1;
    }
    proof {
        assert(ls.take(n as int) =~= ls);
    }
    value
}

/// The system the program runs on: macOS when `on_macos`; otherwise as the
/// text of `/etc/os-release` tells (see [`detected`]).
pub fn detect_os(on_macos: bool, os_release: &str) -> (r: Distro)
    ensures
        r == detected(on_macos, os_release@),
{
    if on_macos {
        return Distro::Macos;
    }
    let lines = split_lines(os_release);
    let id = field_of(&lines, "ID=");
    let id_like = field_of(&lines, "ID_LIKE=");
    if let Some(d) = classify_id_text(id.as_str()) {
        return d;
    }
    let words = split_words(id_like.as_str());
    let ghost ws = texts_view(words@);
    let n = words.len();
    let mut i: usize = 0;
    proof {
        assert(ws.skip(0) =~= ws);
    }
    while i < n
        invariant
            n == words@.len(),
            ws == texts_view(words@),
            i <= n,
            first_like(ws) == first_like(ws.skip(i as int)),
            ws == text_words(field(text_lines(os_release@), "ID_LIKE="@)),
            !on_macos,
            classify_id(field(text_lines(os_release@), "ID="@)) is None,
        decreases n - i,
    {
        let w = words[i].as_str();
        proof {
            assert(ws.skip(i as int).len() > 0);
            assert(ws.skip(i as int)[0] == w@);
            assert(ws.skip(i as int).drop_first() =~= ws.skip(i + 1));
        }
        if let Some(d) = classify_like_text(w) {
            proof {
                assert(first_like(ws.skip(i as int)) == Some(d));
                assert(first_like(ws) == Some(d));
                assert(ws == text_words(field(text_lines(os_release@), "ID_LIKE="@)));
            }
            return d;
        }
        i = i + 1;
    }
    proof {
        assert(ws.skip(n as int) =~= Seq::<Seq<char>>::empty());
    }
    Distro::Other
}

fn fallback(d: Distro) -> (r: &'static str)
    ensures
        r@ == fallback_name(d),
{
    match d {
        Distro::Ubuntu => "Ubuntu",
        Distro::Debian => "Debian GNU/Linux",
        Distro::OpenSuse => "openSUSE Tumbleweed",
        Distro::Fedora => "Fedora Linux",
        Distro::Arch => "Arch Linux",
        Distro::Macos => "macOS",
        Distro::Other => "Unknown",
    }
}

/// The name of the system shown to the user (see [`system_name`]).
pub fn distro_name(on_macos: bool, os_release: &str) -> (r: String)
    ensures
        r@ == system_name(on_macos, os_release@),
{
    let lines = split_lines(os_release);
    let ghost ls = texts_view(lines@);
    let key = "PRETTY_NAME=";
    let n = lines.len();
    let mut i: usize = 0;
    proof {
        assert(ls.skip(0) =~= ls);
    }
    while i < n
        invariant
            n == lines@.len(),
            ls == texts_view(lines@),
            i <= n,
            first_value(ls, key@) == first_value(ls.skip(i as int), key@),
            ls == text_lines(os_release@),
            key@ == "PRETTY_NAME="@,
        decreases n - i,
    {
        let line = lines[i].as_str();
        proof {
            assert(ls.skip(i as int).len() > 0);
            assert(ls.skip(i as int)[0] == line@);
            assert(ls.skip(i as int).drop_first() =~= ls.skip(i + 1));
        }
        if starts_with(line, key) {
            let k = key.unicode_len();
            let rest = slice_chars(line, k, line.unicode_len());
            proof {
                assert(rest@ =~= line@.skip(k as int));
                assert(first_value(ls.skip(i as int), key@) == Some(line@.skip(k as int)));
                assert(ls == text_lines(os_release@));
            }
            return unquote(rest.as_str());
        }
        i = i + 1;
    }
    proof {
        assert(ls.skip(n as int) =~= Seq::<Seq<char>>::empty());
    }
    owned(fallback(detect_os(on_macos, os_release)))
}

/// The command that succeeds exactly when `cmd` is found on the `PATH`.
pub fn command_exists(cmd: &str) -> (r: Invocation)
    ensures
        r@ == (InvocationView {
            program: "sh"@,
            args: seq!["-c"@, "command -v "@ + cmd@ + " >/dev/null 2>&1"@],
        }),
{
    let script = cat3("command -v ", cmd, " >/dev/null 2>&1");
    let args = vec![owned("-c"), script];
    proof {
        assert(texts_view(args@) =~= seq!["-c"@, "command -v "@ + cmd@ + " >/dev/null 2>&1"@]);
    }
    Invocation { program: owned("sh"), args }
}

/// The home directory: the `HOME` setting (`env_home`) when there is one,
/// else `/`.
pub fn home_dir(env_home: Option<String>) -> (r: String)
    ensures
        r@ == match env_home {
            Some(h) => h@,
            None => "/"@,
        },
{
    match env_home {
        Some(h) => h,
        None => owned("/"),
    }
}

/// The root of the dotfiles repository: the `DOTFILES_DIR` setting when there
/// is one, else the directory above this program's sources when there is
/// one, else `dotfiles` in the home directory.
pub fn dotfiles_dir(env_dir: Option<String>, sources_parent: Option<String>, home: &str) -> (r:
    String)
    ensures
        r@ == match env_dir {
            Some(d) => d@,
            None => match sources_parent {
                Some(p) => p@,
                None => path_join(home@, "dotfiles"@),
            },
        },
{
    match env_dir {
        Some(d) => d,
        None => match sources_parent {
            Some(p) => p,
            None => join(home, "dotfiles"),
        },
    }
}

} // verus!
