//! Configuration: the values the widget reads from its environment, and the
//! rewriting of `KEY=value` lines in the local `.env` file.
use vstd::prelude::*;
use vstd::string::*;

use crate::hotkey::{env_key_of, opt_view, HotkeyAction, HotkeyCombos, DEFAULT_TOGGLE_COMBO};
use crate::text::{
    decimal, digit_char, chars_of, is_whitespace, is_ws, join, lines, lines_from, push_char, push_chars, starts_with,
    strip_cr, trim_start,
};

verus! {

// ---------------------------------------------------------------------------
// `.env` rewriting
// ---------------------------------------------------------------------------

/// The line `key=value`.
pub open spec fn assignment(key: Seq<char>, value: Seq<char>) -> Seq<char> {
    key + seq!['='] + value
}

/// Whether `line` assigns `key` (leading whitespace allowed before it).
pub open spec fn assigns(line: Seq<char>, key: Seq<char>) -> bool {
    starts_with(trim_start(line), key.push('='))
}

/// Every line that assigns `key` replaced by `key=value`.
pub open spec fn replace_assignments(ls: Seq<Seq<char>>, key: Seq<char>, value: Seq<char>) -> Seq<
    Seq<char>,
> {
    ls.map_values(|l: Seq<char>| if assigns(l, key) { assignment(key, value) } else { l })
}

/// Whether some line of `ls` assigns `key`.
pub open spec fn any_assigns(ls: Seq<Seq<char>>, key: Seq<char>) -> bool {
    exists|i: int| 0 <= i < ls.len() && assigns(#[trigger] ls[i], key)
}

/// The lines of `.env` after setting `key` to `value`: assignments of `key`
/// are rewritten in place; when there is none, `key=value` is appended.
pub open spec fn updated_env_lines(existing: Seq<char>, key: Seq<char>, value: Seq<char>) -> Seq<
    Seq<char>,
> {
    let ls = lines(existing);
    let replaced = replace_assignments(ls, key, value);
    if any_assigns(ls, key) {
        replaced
    } else {
        replaced.push(assignment(key, value))
    }
}

/// The whole `.env` text after setting `key` to `value`: the updated lines
/// joined by `\n`, with a final `\n`.
pub open spec fn updated_env_text(existing: Seq<char>, key: Seq<char>, value: Seq<char>) -> Seq<
    char,
> {
    join(updated_env_lines(existing, key, value), seq!['\n']) + seq!['\n']
}

proof fn lemma_lines_from_step(s: Seq<char>, cur: Seq<char>)
    requires
        s.len() > 0,
    ensures
        s[0] == '\n' ==> lines_from(s, cur) == seq![strip_cr(cur)] + lines_from(
            s.drop_first(),
            seq![],
        ),
        s[0] != '\n' ==> lines_from(s, cur) == lines_from(s.drop_first(), cur.push(s[0])),
{
}

/// Splits `text` into lines the way `str::lines` does.
pub fn split_lines(text: &Vec<char>) -> (ls: Vec<Vec<char>>)
    ensures
        ls@.map_values(|l: Vec<char>| l@) == lines(text@),
{
    let mut out: Vec<Vec<char>> = Vec::new();
    let mut cur: Vec<char> = Vec::new();
    let mut i: usize = 0;
    assert(text@.skip(0) == text@);
    assert(out@.map_values(|l: Vec<char>| l@) + lines_from(text@.skip(0), cur@) =~= lines(text@));
    while i < text.len()
        invariant
            i <= text.len(),
            out@.map_values(|l: Vec<char>| l@) + lines_from(text@.skip(i as int), cur@) == lines(
                text@,
            ),
        decreases text.len() - i,
    {
        let ghost rest = text@.skip(i as int);
        let ghost before = out@.map_values(|l: Vec<char>| l@);
        let ghost old_cur = cur@;
        proof {
            lemma_lines_from_step(rest, cur@);
            assert(rest.drop_first() == text@.skip(i + 1));
            assert(rest[0] == text@[i as int]);
        }
        let c = text[i];
        if c == '\n' {
            let mut line = cur;
            if line.len() > 0 && line[line.len() - 1] == '\r' {
                line.pop();
            }
            assert(line@ == strip_cr(old_cur));
            out.push(line);
            cur = Vec::new();
            assert(out@.map_values(|l: Vec<char>| l@) =~= before.push(strip_cr(old_cur)));
            assert(before + (seq![strip_cr(old_cur)] + lines_from(text@.skip(i + 1), seq![]))
                =~= before.push(strip_cr(old_cur)) + lines_from(text@.skip(i + 1), seq![]));
        } else {
            cur.push(c);
        }
        i = i + 1;
    }
    assert(text@.skip(i as int).len() == 0);
    if cur.len() > 0 {
        let ghost before = out@.map_values(|l: Vec<char>| l@);
        let ghost last = cur@;
        out.push(cur);
        assert(out@.map_values(|l: Vec<char>| l@) == before + seq![last]);
    } else {
        assert(out@.map_values(|l: Vec<char>| l@) + seq![] == out@.map_values(
            |l: Vec<char>| l@,
        ));
    }
    out
}

proof fn lemma_trim_start_skip(s: Seq<char>, k: int)
    requires
        0 <= k <= s.len(),
        forall|j: int| 0 <= j < k ==> is_ws(#[trigger] s[j]),
        k == s.len() || !is_ws(s[k]),
    ensures
        trim_start(s) == s.skip(k),
    decreases k,
{
    if k == 0 {
        assert(s.skip(0) == s);
    } else {
        assert(forall|j: int| 0 <= j < k - 1 ==> #[trigger] s.drop_first()[j] == s[j + 1]);
        lemma_trim_start_skip(s.drop_first(), k - 1);
        assert(s.drop_first().skip(k - 1) == s.skip(k));
    }
}

/// Whether the line `line` assigns the variable whose `key=` prefix is `prefix`.
fn line_assigns(line: &Vec<char>, prefix: &Vec<char>) -> (r: bool)
    ensures
        r == starts_with(trim_start(line@), prefix@),
{
    let mut k: usize = 0;
    while k < line.len() && is_whitespace(line[k])
        invariant
            k <= line.len(),
            forall|j: int| 0 <= j < k ==> is_ws(#[trigger] line@[j]),
        decreases line.len() - k,
    {
        k = k + 1;
    }
    proof {
        lemma_trim_start_skip(line@, k as int);
    }
    let ghost rest = line@.skip(k as int);
    assert(rest.len() == line.len() - k);
    if prefix.len() > line.len() - k {
        return false;
    }
    let mut j: usize = 0;
    while j < prefix.len()
        invariant
            k <= line.len(),
            rest == line@.skip(k as int),
            trim_start(line@) == rest,
            prefix.len() <= line.len() - k,
            j <= prefix.len(),
            forall|t: int| 0 <= t < j ==> rest[t] == prefix@[t],
        decreases prefix.len() - j,
    {
        if line[k + j] != prefix[j] {
            assert(rest[j as int] != prefix@[j as int]);
            assert(rest.take(prefix.len() as int)[j as int] != prefix@[j as int]);
            return false;
        }
        j = j + 1;
    }
    assert(rest.take(prefix.len() as int) == prefix@);
    true
}

proof fn lemma_join_push(parts: Seq<Seq<char>>, sep: Seq<char>, p: Seq<char>)
    requires
        parts.len() > 0,
    ensures
        join(parts.push(p), sep) == join(parts, sep) + sep + p,
{
    assert(parts.push(p).drop_last() == parts);
}

/// `parts.join("\n") + "\n"`.
fn join_lines_terminated(parts: &Vec<Vec<char>>) -> (s: String)
    ensures
        s@ == join(parts@.map_values(|l: Vec<char>| l@), seq!['\n']) + seq!['\n'],
{
    let ghost views = parts@.map_values(|l: Vec<char>| l@);
    let mut s = String::new();
    let mut i: usize = 0;
    while i < parts.len()
        invariant
            i <= parts.len(),
            views == parts@.map_values(|l: Vec<char>| l@),
            s@ == join(views.take(i as int), seq!['\n']),
        decreases parts.len() - i,
    {
        if i > 0 {
            push_char(&mut s, '\n');
        }
        push_chars(&mut s, &parts[i]);
        proof {
            assert(views.take(i + 1) == views.take(i as int).push(views[i as int]));
            if i > 0 {
                lemma_join_push(views.take(i as int), seq!['\n'], views[i as int]);
            } else {
                assert(views.take(1) == seq![views[0]]);
            }
        }
        i = i + 1;
    }
    assert(views.take(parts.len() as int) == views);
    push_char(&mut s, '\n');
    s
}

/// The `.env` text `existing` with the variable `key` set to `value`:
/// every line assigning `key` becomes `key=value`, or `key=value` is appended
/// when no line assigns it.
pub fn update_env_text(existing: &str, key: &str, value: &str) -> (r: String)
    ensures
        r@ == updated_env_text(existing@, key@, value@),
{
    let text = chars_of(existing);
    let key_chars = chars_of(key);
    let value_chars = chars_of(value);
    let mut prefix = key_chars.clone();
    prefix.push('=');
    assert(prefix@ == key@.push('='));
    let mut line_assignment = prefix.clone();
    let mut t: usize = 0;
    while t < value_chars.len()
        invariant
            t <= value_chars.len(),
            line_assignment@ == prefix@ + value_chars@.take(t as int),
        decreases value_chars.len() - t,
    {
        line_assignment.push(value_chars[t]);
        t = t + 1;
        assert(line_assignment@ == prefix@ + value_chars@.take(t as int));
    }
    assert(value_chars@.take(value_chars.len() as int) == value@);
    assert(line_assignment@ == assignment(key@, value@));

    let ls = split_lines(&text);
    let ghost lv = ls@.map_values(|l: Vec<char>| l@);
    let mut new_lines: Vec<Vec<char>> = Vec::new();
    let mut found = false;
    let mut i: usize = 0;
    while i < ls.len()
        invariant
            i <= ls.len(),
            lv == ls@.map_values(|l: Vec<char>| l@),
            lv == lines(existing@),
            prefix@ == key@.push('='),
            line_assignment@ == assignment(key@, value@),
            new_lines@.map_values(|l: Vec<char>| l@) == replace_assignments(
                lv.take(i as int),
                key@,
                value@,
            ),
            found == any_assigns(lv.take(i as int), key@),
        decreases ls.len() - i,
    {
        let ghost before = new_lines@.map_values(|l: Vec<char>| l@);
        let matches = line_assigns(&ls[i], &prefix);
        if matches {
            new_lines.push(line_assignment.clone());
            found = true;
        } else {
            new_lines.push(ls[i].clone());
        }
        proof {
            let tk = lv.take(i + 1);
            assert(tk == lv.take(i as int).push(lv[i as int]));
            assert(replace_assignments(tk, key@, value@) =~= replace_assignments(
                lv.take(i as int),
                key@,
                value@,
            ).push(if assigns(lv[i as int], key@) { assignment(key@, value@) } else { lv[i as int] }));
            assert(new_lines@.map_values(|l: Vec<char>| l@) =~= replace_assignments(
                tk,
                key@,
                value@,
            ));
            if matches {
                assert(assigns(tk[i as int], key@));
            } else if any_assigns(tk, key@) {
                let w = choose|w: int| 0 <= w < tk.len() && assigns(#[trigger] tk[w], key@);
                assert(w < i);
                assert(tk[w] == lv.take(i as int)[w]);
            }
        }
        i = i + 1;
    }
    assert(lv.take(ls.len() as int) == lv);
    if !found {
        let ghost before = new_lines@.map_values(|l: Vec<char>| l@);
        new_lines.push(line_assignment);
        assert(new_lines@.map_values(|l: Vec<char>| l@) == before.push(assignment(key@, value@)));
    }
    join_lines_terminated(&new_lines)
}

/// The `.env` text `existing` with `action`'s combo set to `combo`.
pub fn save_hotkey_combo(action: HotkeyAction, combo: &str, existing: &str) -> (r: String)
    ensures
        r@ == updated_env_text(existing@, env_key_of(action), combo@),
{
    update_env_text(existing, action.env_key(), combo)
}

} // verus!

verus! {

// ---------------------------------------------------------------------------
// Reading the configuration
// ---------------------------------------------------------------------------

/// The error shown when `SPOTIFY_CLIENT_ID` is not set.
pub const MISSING_CLIENT_ID_MESSAGE: &'static str = "Missing SPOTIFY_CLIENT_ID.\n\nCopy .env.example to .env in the app's install folder and fill in your Spotify Client ID and Secret. See README.md for full setup steps.";

/// The error shown when `SPOTIFY_CLIENT_SECRET` is not set.
pub const MISSING_CLIENT_SECRET_MESSAGE: &'static str = "Missing SPOTIFY_CLIENT_SECRET.\n\nCopy .env.example to .env in the app's install folder and fill in your Spotify Client ID and Secret. See README.md for full setup steps.";

/// The redirect URI used when `SPOTIFY_REDIRECT_URI` is not set.
pub const DEFAULT_REDIRECT_URI: &'static str = "http://127.0.0.1:8888/callback";

/// The auto-hide delay used when `AUTO_HIDE_SECONDS` is unset or not a number.
pub const DEFAULT_AUTO_HIDE_SECONDS: u64 = 6;

/// Whether `c` is an ASCII decimal digit.
pub open spec fn is_digit(c: char) -> bool {
    '0' <= c && c <= '9'
}

/// The number written by the decimal digits `s`.
pub open spec fn digits_value(s: Seq<char>) -> nat
    decreases s.len(),
{
    if s.len() == 0 {
        0
    } else {
        digits_value(s.drop_last()) * 10 + ((s.last() as u32) - 48) as nat
    }
}

/// `s` without one leading `+`.
pub open spec fn unsigned_digits(s: Seq<char>) -> Seq<char> {
    if s.len() > 0 && s[0] == '+' {
        s.drop_first()
    } else {
        s
    }
}

/// Whether every character of `s` is a decimal digit.
pub open spec fn all_digits(s: Seq<char>) -> bool {
    forall|i: int| 0 <= i < s.len() ==> is_digit(#[trigger] s[i])
}

/// What `s.parse::<u64>()` gives: an optional `+`, then one or more ASCII
/// digits whose value fits in a `u64`.
pub open spec fn parsed_u64(s: Seq<char>) -> Option<u64> {
    let digits = unsigned_digits(s);
    if digits.len() == 0 || !all_digits(digits) || digits_value(digits) > u64::MAX {
        None
    } else {
        Some(digits_value(digits) as u64)
    }
}

proof fn lemma_digits_value_grows(s: Seq<char>, i: int, j: int)
    requires
        0 <= i <= j <= s.len(),
        forall|t: int| 0 <= t < s.len() ==> is_digit(#[trigger] s[t]),
    ensures
        digits_value(s.take(i)) <= digits_value(s.take(j)),
    decreases j - i,
{
    if i < j {
        lemma_digits_value_grows(s, i, j - 1);
        assert(s.take(j).drop_last() == s.take(j - 1));
    }
}

/// `s.parse::<u64>().ok()`.
pub fn parse_u64(s: &str) -> (r: Option<u64>)
    ensures
        r == parsed_u64(s@),
{
    let cs = chars_of(s);
    let ghost digits = unsigned_digits(s@);
    let start: usize = if cs.len() > 0 && cs[0] == '+' { 1 } else { 0 };
    assert(digits == cs@.skip(start as int));
    if start >= cs.len() {
        return None;
    }
    let mut value: u64 = 0;
    let mut i: usize = start;
    while i < cs.len()
        invariant
            start <= i <= cs.len(),
            cs@ == s@,
            digits == unsigned_digits(s@),
            digits == cs@.skip(start as int),
            digits.len() > 0,
            forall|t: int| 0 <= t < i - start ==> is_digit(#[trigger] digits[t]),
            value as nat == digits_value(digits.take(i - start)),
        decreases cs.len() - i,
    {
        let c = cs[i];
        let ghost k = i - start;
        assert(digits[k] == c);
        if !('0' <= c && c <= '9') {
            assert(0 <= k < digits.len() && !is_digit(digits[k]));
            return None;
        }
        assert(digits.take(k + 1).drop_last() == digits.take(k));
        assert(digits.take(k + 1).last() == c);
        let d: u64 = ((c as u32) - 48) as u64;
        assert(digits_value(digits.take(k + 1)) == value * 10 + d);
        if value > (u64::MAX - d) / 10 {
            proof {
                assert(digits_value(digits.take(k + 1)) > u64::MAX) by (nonlinear_arith)
                    requires
                        value > (u64::MAX - d) / 10,
                        digits_value(digits.take(k + 1)) == value * 10 + d,
                        d <= 9,
                ;
                if all_digits(digits) {
                    lemma_digits_value_grows(digits, k + 1, digits.len() as int);
                    assert(digits.take(digits.len() as int) == digits);
                    assert(digits_value(digits) > u64::MAX);
                } else {
                }
            }
            return None;
        }
        assert(value * 10 + d <= u64::MAX) by (nonlinear_arith)
            requires
                value <= (u64::MAX - d) / 10,
                d <= 9,
        ;
        value = value * 10 + d;
        i = i + 1;
    }
    assert(digits.take(digits.len() as int) == digits);
    Some(value)
}

proof fn lemma_decimal_digits(n: nat)
    ensures
        decimal(n).len() > 0,
        all_digits(decimal(n)),
        digits_value(decimal(n)) == n,
    decreases n,
{
    let d = n % 10;
    assert(digit_char(d) as u32 - 48 == d);
    assert(is_digit(digit_char(d)));
    if n < 10 {
        let s = decimal(n);
        assert(s == seq![digit_char(n)]);
        assert(s.drop_last() =~= Seq::<char>::empty());
        assert(digits_value(s.drop_last()) == 0);
        assert(s.last() == digit_char(n));
        assert(digits_value(s) == d);
    } else {
        lemma_decimal_digits(n / 10);
        let s = decimal(n);
        let p = decimal(n / 10);
        assert(s == p.push(digit_char(d)));
        assert(s.drop_last() == p);
        assert(s.last() == digit_char(d));
        assert(digits_value(s) == digits_value(p) * 10 + d);
        assert((n / 10) * 10 + d == n);
        assert forall|i: int| 0 <= i < s.len() implies is_digit(#[trigger] s[i]) by {
            if i < p.len() {
                assert(s[i] == p[i]);
            }
        }
    }
}

/// Parsing what `decimal_string` writes gives the number back.
pub proof fn lemma_parse_decimal_roundtrip(n: u64)
    ensures
        parsed_u64(decimal(n as nat)) == Some(n),
{
    lemma_decimal_digits(n as nat);
    let s = decimal(n as nat);
    assert(is_digit(s[0]));
    assert(unsigned_digits(s) == s);
}

/// The environment values the configuration is read from (`None`: the
/// variable is unset or not valid Unicode).
pub struct EnvVars {
    pub spotify_client_id: Option<String>,
    pub spotify_client_secret: Option<String>,
    pub spotify_redirect_uri: Option<String>,
    pub auto_hide_seconds: Option<String>,
    pub hotkey_combo: Option<String>,
    pub hotkey_play_pause: Option<String>,
    pub hotkey_next: Option<String>,
    pub hotkey_previous: Option<String>,
}

/// The widget's settings.
pub struct Config {
    pub spotify_client_id: String,
    pub spotify_client_secret: String,
    pub spotify_redirect_uri: String,
    pub auto_hide_seconds: u64,
    pub hotkey_combos: HotkeyCombos,
}

/// The auto-hide delay that an `AUTO_HIDE_SECONDS` value gives.
pub open spec fn auto_hide_from(v: Option<Seq<char>>) -> u64 {
    match v {
        Some(s) => match parsed_u64(s) {
            Some(n) => n,
            None => 6,
        },
        None => 6,
    }
}

impl Config {
    /// Builds the configuration from the environment: the client id and
    /// secret are required, everything else has a default.
    pub fn load(vars: EnvVars) -> (r: Result<Config, String>)
        ensures
            vars.spotify_client_id is None ==> (r matches Err(m) && m@ == MISSING_CLIENT_ID_MESSAGE@),
            vars.spotify_client_id is Some && vars.spotify_client_secret is None ==> (r matches Err(
                m,
            ) && m@ == MISSING_CLIENT_SECRET_MESSAGE@),
            vars.spotify_client_id is Some && vars.spotify_client_secret is Some ==> (r matches Ok(
                c,
            ) && {
                &&& Some(c.spotify_client_id@) == opt_view(vars.spotify_client_id)
                &&& Some(c.spotify_client_secret@) == opt_view(vars.spotify_client_secret)
                &&& c.spotify_redirect_uri@ == match opt_view(vars.spotify_redirect_uri) {
                    Some(u) => u,
                    None => DEFAULT_REDIRECT_URI@,
                }
                &&& c.auto_hide_seconds == auto_hide_from(opt_view(vars.auto_hide_seconds))
                &&& c.hotkey_combos.requested(HotkeyAction::ToggleVisibility) == Some(
                    match opt_view(vars.hotkey_combo) {
                        Some(k) => k,
                        None => DEFAULT_TOGGLE_COMBO@,
                    },
                )
                &&& c.hotkey_combos.requested(HotkeyAction::PlayPause) == opt_view(
                    vars.hotkey_play_pause,
                )
                &&& c.hotkey_combos.requested(HotkeyAction::Next) == opt_view(vars.hotkey_next)
                &&& c.hotkey_combos.requested(HotkeyAction::Previous) == opt_view(
                    vars.hotkey_previous,
                )
            }),
    {
        let spotify_client_id = match vars.spotify_client_id {
            Some(v) => v,
            None => {
                return Err(String::from_str(MISSING_CLIENT_ID_MESSAGE));
            },
        };
        let spotify_client_secret = match vars.spotify_client_secret {
            Some(v) => v,
            None => {
                return Err(String::from_str(MISSING_CLIENT_SECRET_MESSAGE));
            },
        };
        let spotify_redirect_uri = match vars.spotify_redirect_uri {
            Some(v) => v,
            None => String::from_str(DEFAULT_REDIRECT_URI),
        };
        let auto_hide_seconds = match &vars.auto_hide_seconds {
            Some(v) => match parse_u64(v.as_str()) {
                Some(n) => n,
                None => DEFAULT_AUTO_HIDE_SECONDS,
            },
            None => DEFAULT_AUTO_HIDE_SECONDS,
        };
        let toggle = match vars.hotkey_combo {
            Some(v) => v,
            None => String::from_str(DEFAULT_TOGGLE_COMBO),
        };
        Ok(Config {
            spotify_client_id,
            spotify_client_secret,
            spotify_redirect_uri,
            auto_hide_seconds,
            hotkey_combos: HotkeyCombos {
                toggle_visibility: Some(toggle),
                play_pause: vars.hotkey_play_pause,
                next: vars.hotkey_next,
                previous: vars.hotkey_previous,
            },
        })
    }
}

} // verus!

verus! {

// ---------------------------------------------------------------------------
// Reading a variable back from `.env`
// ---------------------------------------------------------------------------

/// The value of the last line of `ls` that assigns `key`: what follows
/// `key=` after the line's leading whitespace.
pub open spec fn assigned_value(ls: Seq<Seq<char>>, key: Seq<char>) -> Option<Seq<char>>
    decreases ls.len(),
{
    if ls.len() == 0 {
        None
    } else if assigns(ls.last(), key) {
        Some(trim_start(ls.last()).skip(key.len() + 1int))
    } else {
        assigned_value(ls.drop_last(), key)
    }
}

/// The value `text` assigns to `key`, read line by line.
pub open spec fn env_value(text: Seq<char>, key: Seq<char>) -> Option<Seq<char>> {
    assigned_value(lines(text), key)
}

/// Whether `s` contains the character `c`.
pub open spec fn has_char(s: Seq<char>, c: char) -> bool {
    exists|i: int| 0 <= i < s.len() && s[i] == c
}

/// The lines `ls`, each followed by `\n`.
pub open spec fn terminated(ls: Seq<Seq<char>>) -> Seq<char>
    decreases ls.len(),
{
    if ls.len() == 0 {
        seq![]
    } else {
        ls[0] + seq!['\n'] + terminated(ls.drop_first())
    }
}

proof fn lemma_terminated_push(ls: Seq<Seq<char>>, x: Seq<char>)
    ensures
        terminated(ls.push(x)) == terminated(ls) + x + seq!['\n'],
    decreases ls.len(),
{
    if ls.len() == 0 {
        assert(ls.push(x).drop_first() =~= Seq::<Seq<char>>::empty());
        assert(terminated(ls.push(x).drop_first()) =~= Seq::<char>::empty());
        assert(ls.push(x)[0] == x);
        assert(terminated(ls.push(x)) =~= x + seq!['\n']);
        assert(terminated(ls) + x + seq!['\n'] =~= x + seq!['\n']);
    } else {
        assert(ls.push(x).drop_first() == ls.drop_first().push(x));
        lemma_terminated_push(ls.drop_first(), x);
        assert(ls.push(x)[0] == ls[0]);
        assert(terminated(ls.push(x)) =~= terminated(ls) + x + seq!['\n']);
    }
}

proof fn lemma_join_terminated(ls: Seq<Seq<char>>)
    requires
        ls.len() > 0,
    ensures
        join(ls, seq!['\n']) + seq!['\n'] == terminated(ls),
    decreases ls.len(),
{
    if ls.len() == 1 {
        assert(ls.drop_first() =~= Seq::<Seq<char>>::empty());
        assert(terminated(ls.drop_first()) =~= Seq::<char>::empty());
        assert(terminated(ls) =~= ls[0] + seq!['\n']);
    } else {
        lemma_join_terminated(ls.drop_last());
        lemma_terminated_push(ls.drop_last(), ls.last());
        assert(ls.drop_last().push(ls.last()) == ls);
        assert(join(ls, seq!['\n']) + seq!['\n'] =~= (join(ls.drop_last(), seq!['\n']) + seq!['\n'])
            + ls.last() + seq!['\n']);
    }
}

proof fn lemma_lines_from_line(l: Seq<char>, r: Seq<char>, cur: Seq<char>)
    requires
        !has_char(l, '\n'),
    ensures
        lines_from(l + seq!['\n'] + r, cur) == seq![strip_cr(cur + l)] + lines_from(r, seq![]),
    decreases l.len(),
{
    let s = l + seq!['\n'] + r;
    if l.len() == 0 {
        assert(s[0] == '\n');
        assert(s.drop_first() =~= r);
        assert(cur + l =~= cur);
    } else {
        assert(s[0] == l[0]);
        assert(l[0] != '\n');
        assert(s.drop_first() =~= l.drop_first() + seq!['\n'] + r);
        assert(!has_char(l.drop_first(), '\n')) by {
            if has_char(l.drop_first(), '\n') {
                let i = choose|i: int| 0 <= i < l.drop_first().len() && l.drop_first()[i] == '\n';
                assert(l[i + 1] == '\n');
            }
        }
        lemma_lines_from_line(l.drop_first(), r, cur.push(l[0]));
        assert(cur.push(l[0]) + l.drop_first() =~= cur + l);
    }
}

/// No line of `ls` contains a line break.
pub open spec fn single_lines(ls: Seq<Seq<char>>) -> bool {
    forall|i: int| 0 <= i < ls.len() ==> !has_char(#[trigger] ls[i], '\n')
}

proof fn lemma_lines_of_terminated(ls: Seq<Seq<char>>)
    requires
        single_lines(ls),
    ensures
        lines(terminated(ls)) == ls.map_values(|l: Seq<char>| strip_cr(l)),
    decreases ls.len(),
{
    if ls.len() == 0 {
        assert(ls.map_values(|l: Seq<char>| strip_cr(l)) =~= Seq::<Seq<char>>::empty());
    } else {
        assert(!has_char(ls[0], '\n'));
        lemma_lines_from_line(ls[0], terminated(ls.drop_first()), seq![]);
        assert(seq![] + ls[0] =~= ls[0]);
        assert(single_lines(ls.drop_first())) by {
            assert forall|i: int| 0 <= i < ls.drop_first().len() implies !has_char(
                #[trigger] ls.drop_first()[i],
                '\n',
            ) by {
                assert(ls.drop_first()[i] == ls[i + 1]);
            }
        }
        lemma_lines_of_terminated(ls.drop_first());
        assert(ls.map_values(|l: Seq<char>| strip_cr(l)) =~= seq![strip_cr(ls[0])]
            + ls.drop_first().map_values(|l: Seq<char>| strip_cr(l)));
    }
}

/// The lines of joined, newline-terminated lines are those lines, each
/// without one trailing `\r`.
pub proof fn lemma_lines_of_joined(ls: Seq<Seq<char>>)
    requires
        ls.len() > 0,
        single_lines(ls),
    ensures
        lines(join(ls, seq!['\n']) + seq!['\n']) == ls.map_values(|l: Seq<char>| strip_cr(l)),
{
    lemma_join_terminated(ls);
    lemma_lines_of_terminated(ls);
}

proof fn lemma_lines_from_single(s: Seq<char>, cur: Seq<char>)
    requires
        !has_char(cur, '\n'),
    ensures
        single_lines(lines_from(s, cur)),
    decreases s.len(),
{
    if s.len() == 0 {
    } else if s[0] == '\n' {
        lemma_lines_from_single(s.drop_first(), seq![]);
        let rest = lines_from(s.drop_first(), seq![]);
        let sc = strip_cr(cur);
        assert(!has_char(sc, '\n')) by {
            if has_char(sc, '\n') {
                let i = choose|i: int| 0 <= i < sc.len() && sc[i] == '\n';
                assert(cur[i] == '\n');
            }
        }
        assert forall|i: int| 0 <= i < (seq![sc] + rest).len() implies !has_char(
            #[trigger] (seq![sc] + rest)[i],
            '\n',
        ) by {
            if i > 0 {
                assert((seq![sc] + rest)[i] == rest[i - 1]);
            }
        }
    } else {
        assert(!has_char(cur.push(s[0]), '\n')) by {
            if has_char(cur.push(s[0]), '\n') {
                let i = choose|i: int| 0 <= i < cur.push(s[0]).len() && cur.push(s[0])[i] == '\n';
                if i < cur.len() {
                    assert(cur[i] == '\n');
                }
            }
        }
        lemma_lines_from_single(s.drop_first(), cur.push(s[0]));
    }
}

/// `a` is a prefix of `b`.
pub open spec fn is_prefix(a: Seq<char>, b: Seq<char>) -> bool {
    a.len() <= b.len() && b.take(a.len() as int) == a
}

proof fn lemma_trim_start_drop_last(s: Seq<char>)
    requires
        s.len() > 0,
    ensures
        is_prefix(trim_start(s.drop_last()), trim_start(s)),
    decreases s.len(),
{
    if s.len() == 1 {
        assert(s.drop_last().len() == 0);
        assert(trim_start(s.drop_last()) =~= Seq::<char>::empty());
        assert(trim_start(s).take(0) =~= Seq::<char>::empty());
    } else if is_ws(s[0]) {
        assert(s.drop_last()[0] == s[0]);
        assert(s.drop_last().drop_first() == s.drop_first().drop_last());
        lemma_trim_start_drop_last(s.drop_first());
    } else {
        assert(s.drop_last()[0] == s[0]);
        assert(trim_start(s) == s);
        assert(trim_start(s.drop_last()) == s.drop_last());
        assert(s.take(s.drop_last().len() as int) =~= s.drop_last());
    }
}

proof fn lemma_strip_cr_keeps_non_assigning(l: Seq<char>, key: Seq<char>)
    requires
        !assigns(l, key),
    ensures
        !assigns(strip_cr(l), key),
{
    if l.len() > 0 && l.last() == '\r' {
        lemma_trim_start_drop_last(l);
        let a = trim_start(l.drop_last());
        let b = trim_start(l);
        let p = key.push('=');
        if starts_with(a, p) {
            assert forall|i: int| 0 <= i < p.len() implies b.take(p.len() as int)[i] == p[i] by {
                assert(b[i] == a[i]);
            }
            assert(b.take(p.len() as int) =~= p);
        }
    }
}

proof fn lemma_assignment_assigns(key: Seq<char>, value: Seq<char>)
    requires
        key.len() > 0,
        !is_ws(key[0]),
    ensures
        trim_start(assignment(key, value)) == assignment(key, value),
        assigns(assignment(key, value), key),
        trim_start(assignment(key, value)).skip(key.len() + 1int) == value,
{
    let a = assignment(key, value);
    assert(a[0] == key[0]);
    assert(a.take(key.len() + 1int) =~= key.push('='));
    assert(a.skip(key.len() + 1int) =~= value);
}

proof fn lemma_assigned_value_unique(ls: Seq<Seq<char>>, key: Seq<char>, a: Seq<char>)
    requires
        assigns(a, key),
        forall|i: int| 0 <= i < ls.len() && assigns(#[trigger] ls[i], key) ==> ls[i] == a,
        exists|i: int| 0 <= i < ls.len() && assigns(#[trigger] ls[i], key),
    ensures
        assigned_value(ls, key) == Some(trim_start(a).skip(key.len() + 1int)),
    decreases ls.len(),
{
    if !assigns(ls.last(), key) {
        let w = choose|i: int| 0 <= i < ls.len() && assigns(#[trigger] ls[i], key);
        assert(w < ls.len() - 1);
        assert(ls.drop_last()[w] == ls[w]);
        assert forall|i: int| 0 <= i < ls.drop_last().len() && assigns(
            #[trigger] ls.drop_last()[i],
            key,
        ) implies ls.drop_last()[i] == a by {
            assert(ls.drop_last()[i] == ls[i]);
        }
        lemma_assigned_value_unique(ls.drop_last(), key, a);
    } else {
        assert(ls.last() == ls[ls.len() - 1]);
    }
}

/// After `key` is set to `value` in a `.env` text, reading the text back
/// gives `value` for `key` (for a key that starts with no whitespace, and a
/// key and value without line breaks whose value does not end in `\r`).
pub proof fn lemma_saved_value_reads_back(existing: Seq<char>, key: Seq<char>, value: Seq<char>)
    requires
        key.len() > 0,
        !is_ws(key[0]),
        !has_char(key, '\n'),
        !has_char(value, '\n'),
        !(value.len() > 0 && value.last() == '\r'),
    ensures
        env_value(updated_env_text(existing, key, value), key) == Some(value),
{
    let a = assignment(key, value);
    let ls = lines(existing);
    let u = updated_env_lines(existing, key, value);
    let f = |l: Seq<char>| if assigns(l, key) { a } else { l };
    lemma_assignment_assigns(key, value);
    lemma_lines_from_single(existing, seq![]);
    assert(!has_char(a, '\n')) by {
        if has_char(a, '\n') {
            let i = choose|i: int| 0 <= i < a.len() && a[i] == '\n';
            if i < key.len() {
                assert(key[i] == '\n');
            } else if i == key.len() {
            } else {
                assert(value[i - key.len() - 1] == '\n');
            }
        }
    }
    assert(strip_cr(a) == a) by {
        if value.len() > 0 {
            assert(a.last() == value.last());
        } else {
            assert(a.last() == '=');
        }
    }
    let replaced = replace_assignments(ls, key, value);
    assert(single_lines(u)) by {
        assert forall|i: int| 0 <= i < u.len() implies !has_char(#[trigger] u[i], '\n') by {
            if i < ls.len() {
                assert(replaced[i] == f(ls[i]));
                assert(!has_char(ls[i], '\n'));
            }
        }
    }
    assert(u.len() > 0) by {
        if any_assigns(ls, key) {
            let w = choose|w: int| 0 <= w < ls.len() && assigns(#[trigger] ls[w], key);
        }
    }
    lemma_lines_of_joined(u);
    let out = u.map_values(|l: Seq<char>| strip_cr(l));
    assert forall|i: int| 0 <= i < out.len() && assigns(#[trigger] out[i], key) implies out[i]
        == a by {
        assert(out[i] == strip_cr(u[i]));
        if i < ls.len() {
            assert(replaced[i] == f(ls[i]));
            if !assigns(ls[i], key) {
                lemma_strip_cr_keeps_non_assigning(ls[i], key);
            }
        }
    }
    assert(exists|i: int| 0 <= i < out.len() && assigns(#[trigger] out[i], key)) by {
        if any_assigns(ls, key) {
            let w = choose|w: int| 0 <= w < ls.len() && assigns(#[trigger] ls[w], key);
            assert(replaced[w] == a);
            assert(out[w] == strip_cr(u[w]));
        } else {
            assert(out[ls.len() as int] == strip_cr(a));
        }
    }
    lemma_assigned_value_unique(out, key, a);
}


/// `o` with one trailing `\r` dropped from the value it holds.
pub open spec fn opt_strip_cr(o: Option<Seq<char>>) -> Option<Seq<char>> {
    match o {
        Some(x) => Some(strip_cr(x)),
        None => None,
    }
}

proof fn lemma_keys_disjoint(l: Seq<char>, k: Seq<char>, k2: Seq<char>)
    requires
        assigns(l, k),
        assigns(l, k2),
        !has_char(k, '='),
        !has_char(k2, '='),
    ensures
        k == k2,
{
    let t = trim_start(l);
    let p = k.push('=');
    let p2 = k2.push('=');
    assert(t.take(p.len() as int) == p);
    assert(t.take(p2.len() as int) == p2);
    if k.len() < k2.len() {
        assert(t.take(p.len() as int)[k.len() as int] == t[k.len() as int]);
        assert(t.take(p2.len() as int)[k.len() as int] == t[k.len() as int]);
        assert(p2[k.len() as int] == k2[k.len() as int]);
        assert(k2[k.len() as int] == '=');
    } else if k2.len() < k.len() {
        assert(t.take(p2.len() as int)[k2.len() as int] == t[k2.len() as int]);
        assert(t.take(p.len() as int)[k2.len() as int] == t[k2.len() as int]);
        assert(p[k2.len() as int] == k[k2.len() as int]);
        assert(k[k2.len() as int] == '=');
    } else {
        assert forall|i: int| 0 <= i < k.len() implies k[i] == k2[i] by {
            assert(t.take(p.len() as int)[i] == t[i]);
            assert(t.take(p2.len() as int)[i] == t[i]);
            assert(p[i] == k[i]);
            assert(p2[i] == k2[i]);
        }
        assert(k =~= k2);
    }
}

proof fn lemma_trim_start_last(s: Seq<char>)
    requires
        trim_start(s).len() > 0,
    ensures
        s.len() > 0,
        trim_start(s).last() == s.last(),
        trim_start(s).len() <= s.len(),
    decreases s.len(),
{
    if s.len() > 0 && is_ws(s[0]) {
        lemma_trim_start_last(s.drop_first());
    }
}

proof fn lemma_trim_start_drop_last_long(s: Seq<char>)
    requires
        trim_start(s).len() >= 2,
    ensures
        trim_start(s.drop_last()) == trim_start(s).drop_last(),
    decreases s.len(),
{
    lemma_trim_start_last(s);
    if is_ws(s[0]) {
        lemma_trim_start_last(s.drop_first());
        assert(s.drop_last()[0] == s[0]);
        assert(s.drop_last().drop_first() =~= s.drop_first().drop_last());
        lemma_trim_start_drop_last_long(s.drop_first());
    } else {
        assert(s.drop_last()[0] == s[0]);
    }
}

proof fn lemma_strip_cr_assigning(l: Seq<char>, key: Seq<char>)
    requires
        assigns(l, key),
    ensures
        assigns(strip_cr(l), key),
        trim_start(strip_cr(l)).skip(key.len() + 1int) == strip_cr(
            trim_start(l).skip(key.len() + 1int),
        ),
{
    let n = key.len() + 1int;
    let t = trim_start(l);
    let p = key.push('=');
    assert(t.take(n) == p);
    assert(t.take(n)[key.len() as int] == t[key.len() as int]);
    assert(t[key.len() as int] == '=');
    lemma_trim_start_last(l);
    if l.len() > 0 && l.last() == '\r' {
        assert(t.len() > n) by {
            if t.len() == n {
                assert(t.last() == t[key.len() as int]);
            }
        }
        lemma_trim_start_drop_last_long(l);
        assert(t.drop_last().take(n) =~= t.take(n));
        assert(t.drop_last().skip(n) =~= t.skip(n).drop_last());
        assert(t.skip(n).last() == t.last());
    } else {
        if t.skip(n).len() > 0 {
            assert(t.skip(n).last() == t.last());
        }
    }
}

proof fn lemma_assigned_value_strip(ls: Seq<Seq<char>>, out: Seq<Seq<char>>, key: Seq<char>)
    requires
        out.len() == ls.len(),
        forall|i: int| 0 <= i < ls.len() ==> (assigns(#[trigger] out[i], key) <==> assigns(ls[i], key)),
        forall|i: int|
            0 <= i < ls.len() && assigns(#[trigger] ls[i], key) ==> trim_start(out[i]).skip(
                key.len() + 1int,
            ) == strip_cr(trim_start(ls[i]).skip(key.len() + 1int)),
    ensures
        assigned_value(out, key) == opt_strip_cr(assigned_value(ls, key)),
    decreases ls.len(),
{
    if ls.len() > 0 {
        let j = ls.len() - 1;
        assert(out.last() == out[j]);
        assert(ls.last() == ls[j]);
        if assigns(ls[j], key) {
            assert(assigns(out[j], key));
        } else {
            assert(!assigns(out[j], key));
            let ls2 = ls.drop_last();
            let out2 = out.drop_last();
            assert forall|i: int| 0 <= i < ls2.len() implies (assigns(#[trigger] out2[i], key)
                <==> assigns(ls2[i], key)) by {
                assert(out2[i] == out[i]);
                assert(ls2[i] == ls[i]);
            }
            assert forall|i: int|
                0 <= i < ls2.len() && assigns(#[trigger] ls2[i], key) implies trim_start(
                out2[i],
            ).skip(key.len() + 1int) == strip_cr(trim_start(ls2[i]).skip(key.len() + 1int)) by {
                assert(out2[i] == out[i]);
                assert(ls2[i] == ls[i]);
            }
            lemma_assigned_value_strip(ls2, out2, key);
        }
    }
}

/// Setting `key` in a `.env` text leaves what the text says of any other
/// key `other` as it was, but for one trailing `\r` that the rewrite drops
/// (keys without `=`, `key` without line breaks and not starting with
/// whitespace, and a value without line breaks).
pub proof fn lemma_update_keeps_other_values(
    existing: Seq<char>,
    key: Seq<char>,
    other: Seq<char>,
    value: Seq<char>,
)
    requires
        key.len() > 0,
        !is_ws(key[0]),
        !has_char(key, '='),
        !has_char(key, '\n'),
        !has_char(other, '='),
        key != other,
        !has_char(value, '\n'),
    ensures
        env_value(updated_env_text(existing, key, value), other) == opt_strip_cr(
            env_value(existing, other),
        ),
{
    let a = assignment(key, value);
    let ls = lines(existing);
    let m = ls.len();
    let u = updated_env_lines(existing, key, value);
    let replaced = replace_assignments(ls, key, value);
    let f = |l: Seq<char>| if assigns(l, key) { a } else { l };
    lemma_assignment_assigns(key, value);
    lemma_lines_from_single(existing, seq![]);
    assert(!has_char(a, '\n')) by {
        if has_char(a, '\n') {
            let i = choose|i: int| 0 <= i < a.len() && a[i] == '\n';
            if i < key.len() {
                assert(key[i] == '\n');
            } else if i > key.len() {
                assert(value[i - key.len() - 1] == '\n');
            }
        }
    }
    assert(single_lines(u)) by {
        assert forall|i: int| 0 <= i < u.len() implies !has_char(#[trigger] u[i], '\n') by {
            if i < m {
                assert(replaced[i] == f(ls[i]));
                assert(!has_char(ls[i], '\n'));
            }
        }
    }
    assert(u.len() > 0) by {
        if any_assigns(ls, key) {
            let w = choose|w: int| 0 <= w < ls.len() && assigns(#[trigger] ls[w], key);
        }
    }
    lemma_lines_of_joined(u);
    let out = u.map_values(|l: Seq<char>| strip_cr(l));
    assert(!assigns(a, other)) by {
        if assigns(a, other) {
            lemma_keys_disjoint(a, key, other);
        }
    }
    lemma_strip_cr_keeps_non_assigning(a, other);
    let out_m = out.take(m as int);
    assert forall|i: int| 0 <= i < m implies (assigns(#[trigger] out_m[i], other) <==> assigns(
        ls[i],
        other,
    )) by {
        assert(out_m[i] == out[i]);
        assert(out[i] == strip_cr(u[i]));
        assert(u[i] == replaced[i]);
        assert(replaced[i] == f(ls[i]));
        if assigns(ls[i], key) {
            if assigns(ls[i], other) {
                lemma_keys_disjoint(ls[i], key, other);
            }
        } else if assigns(ls[i], other) {
            lemma_strip_cr_assigning(ls[i], other);
        } else {
            lemma_strip_cr_keeps_non_assigning(ls[i], other);
        }
    }
    assert forall|i: int|
        0 <= i < m && assigns(#[trigger] ls[i], other) implies trim_start(out_m[i]).skip(
        other.len() + 1int,
    ) == strip_cr(trim_start(ls[i]).skip(other.len() + 1int)) by {
        assert(out_m[i] == out[i]);
        assert(out[i] == strip_cr(u[i]));
        assert(u[i] == replaced[i]);
        assert(replaced[i] == f(ls[i]));
        if assigns(ls[i], key) {
            lemma_keys_disjoint(ls[i], key, other);
        }
        lemma_strip_cr_assigning(ls[i], other);
    }
    lemma_assigned_value_strip(ls, out_m, other);
    if any_assigns(ls, key) {
        assert(out_m =~= out);
    } else {
        assert(out.last() == strip_cr(u[m as int]));
        assert(u[m as int] == a);
        assert(out.drop_last() =~= out_m);
    }
}

/// Saving a value a second time changes nothing: the text after two saves of
/// `key=value` is the text after one (for a key without line breaks that
/// does not start with whitespace, a value without line breaks, and a text
/// none of whose lines that leave `key` alone ends in `\r`).
pub proof fn lemma_update_idempotent(existing: Seq<char>, key: Seq<char>, value: Seq<char>)
    requires
        key.len() > 0,
        !is_ws(key[0]),
        !has_char(key, '\n'),
        !has_char(value, '\n'),
        forall|i: int|
            0 <= i < lines(existing).len() && !assigns(#[trigger] lines(existing)[i], key)
                ==> strip_cr(lines(existing)[i]) == lines(existing)[i],
    ensures
        updated_env_text(updated_env_text(existing, key, value), key, value) == updated_env_text(
            existing,
            key,
            value,
        ),
{
    let a = assignment(key, value);
    let ls = lines(existing);
    let m = ls.len();
    let u = updated_env_lines(existing, key, value);
    let replaced = replace_assignments(ls, key, value);
    let f = |l: Seq<char>| if assigns(l, key) { a } else { l };
    let t1 = updated_env_text(existing, key, value);
    lemma_assignment_assigns(key, value);
    lemma_lines_from_single(existing, seq![]);
    assert(!has_char(a, '\n')) by {
        if has_char(a, '\n') {
            let i = choose|i: int| 0 <= i < a.len() && a[i] == '\n';
            if i < key.len() {
                assert(key[i] == '\n');
            } else if i > key.len() {
                assert(value[i - key.len() - 1] == '\n');
            }
        }
    }
    assert(single_lines(u)) by {
        assert forall|i: int| 0 <= i < u.len() implies !has_char(#[trigger] u[i], '\n') by {
            if i < m {
                assert(replaced[i] == f(ls[i]));
                assert(!has_char(ls[i], '\n'));
            }
        }
    }
    assert(u.len() > 0) by {
        if any_assigns(ls, key) {
            let w = choose|w: int| 0 <= w < ls.len() && assigns(#[trigger] ls[w], key);
        }
    }
    lemma_lines_of_joined(u);
    let ls2 = lines(t1);
    lemma_strip_cr_assigning(a, key);
    assert forall|i: int| 0 <= i < u.len() implies (u[i] == a || (!assigns(#[trigger] u[i], key)
        && strip_cr(u[i]) == u[i])) by {
        if i < m {
            assert(replaced[i] == f(ls[i]));
        }
    }
    assert(any_assigns(ls2, key)) by {
        if any_assigns(ls, key) {
            let w = choose|w: int| 0 <= w < ls.len() && assigns(#[trigger] ls[w], key);
            assert(replaced[w] == a);
            assert(ls2[w] == strip_cr(u[w]));
        } else {
            assert(u[m as int] == a);
            assert(ls2[m as int] == strip_cr(u[m as int]));
        }
    }
    let r2 = replace_assignments(ls2, key, value);
    assert forall|i: int| 0 <= i < u.len() implies #[trigger] r2[i] == u[i] by {
        assert(ls2[i] == strip_cr(u[i]));
        if u[i] != a {
            assert(!assigns(u[i], key) && strip_cr(u[i]) == u[i]);
        }
    }
    assert(r2 =~= u);
    assert(updated_env_lines(t1, key, value) == u);
}

proof fn lemma_env_key_shape(action: HotkeyAction)
    ensures
        env_key_of(action).len() > 0,
        !is_ws(env_key_of(action)[0]),
        !has_char(env_key_of(action), '='),
        !has_char(env_key_of(action), '\n'),
        action == HotkeyAction::ToggleVisibility ==> env_key_of(action).len() == 12,
        action == HotkeyAction::PlayPause ==> env_key_of(action).len() == 17,
        action == HotkeyAction::Next ==> env_key_of(action).len() == 11,
        action == HotkeyAction::Previous ==> env_key_of(action).len() == 15,
{
    reveal_strlit("HOTKEY_COMBO");
    reveal_strlit("HOTKEY_PLAY_PAUSE");
    reveal_strlit("HOTKEY_NEXT");
    reveal_strlit("HOTKEY_PREVIOUS");
}

/// Saving one action's combo leaves the combo the `.env` text holds for
/// every other action as it was (for a combo without line breaks, and an
/// old value of the other action that does not end in `\r`).
pub proof fn lemma_save_keeps_other_combos(
    existing: Seq<char>,
    action: HotkeyAction,
    other: HotkeyAction,
    combo: Seq<char>,
)
    requires
        action != other,
        !has_char(combo, '\n'),
        !(env_value(existing, env_key_of(other)) matches Some(x) && x.len() > 0 && x.last()
            == '\r'),
    ensures
        env_value(updated_env_text(existing, env_key_of(action), combo), env_key_of(other))
            == env_value(existing, env_key_of(other)),
{
    lemma_env_key_shape(action);
    lemma_env_key_shape(other);
    lemma_update_keeps_other_values(existing, env_key_of(action), env_key_of(other), combo);
}

} // verus!
