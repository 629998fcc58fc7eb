//! Reading the command line of the `minimax` tool: positional words, output flags,
//! and each command's options.

use vstd::prelude::*;
use vstd::string::*;

use crate::error::prefixed;
use crate::lexorder::{compare_str, StrOrder};
use crate::subagent::catalog::contains_name;
use crate::text::{
    char_is_whitespace, integer_text_value, join, joined, occurs_at, parse_i64, push_char,
    str_starts_with, unicode_whitespace, views,
};

verus! {

/// The voice that `text_to_audio` and the other speech commands use unless `--voice`
/// names one.
pub const CLI_DEFAULT_VOICE: &'static str = "female-yujie";

/// The token limit of `chat` unless `--max-tokens` gives one.
pub const CLI_CHAT_MAX_TOKENS: i32 = 2048;

/// The system prompt of `chat` unless `--system` gives one.
pub const CLI_DEFAULT_SYSTEM_PROMPT: &'static str = "你是一个编程助手。遵循 Karpathy Guidelines：1) 先思考再编码，不确定时主动询问；2) 简洁优先，只写最小必要代码；3) 精准修改，不乱动无关代码；4) 目标驱动，定义可验证的成功标准。";

/// The words of `args` from `start` on, joined by spaces; empty when `start` is past
/// the end.
pub open spec fn collected(args: Seq<Seq<char>>, start: int) -> Seq<char> {
    if start >= args.len() {
        Seq::empty()
    } else {
        joined(args.skip(start), " "@)
    }
}

/// The arguments from `start` on, joined by spaces.
pub fn collect_args(args: &Vec<String>, start: usize) -> (r: String)
    ensures
        r@ == collected(views(args@), start as int),
{
    if start >= args.len() {
        return String::new();
    }
    let mut rest: Vec<String> = Vec::new();
    let n = args.len();
    let mut i: usize = start;
    while i < n
        invariant
            n == args@.len(),
            start <= i <= n,
            views(rest@) == views(args@).subrange(start as int, i as int),
        decreases n - i,
    {
        let ghost before = rest@;
        rest.push(args[i].clone());
        assert(views(rest@) =~= views(before).push(args@[i as int]@));
        assert(views(args@).subrange(start as int, i + 1) =~= views(args@).subrange(start as int, i as int).push(
            args@[i as int]@,
        ));
        i = i + 1;
    }
    assert(views(args@).skip(start as int) =~= views(args@).subrange(start as int, n as int));
    join(&rest, " ")
}

/// `--file <path>` and `--output-directory <dir>` read from position `i` on, while they
/// come first: the file, the directory (a later one replaces an earlier) and where the
/// rest begins. A flag without a value, or any other word, ends them.
pub open spec fn output_flags_from(
    args: Seq<Seq<char>>,
    i: int,
    file: Option<Seq<char>>,
    dir: Option<Seq<char>>,
) -> (Option<Seq<char>>, Option<Seq<char>>, int)
    decreases args.len() - i,
{
    if i < 0 || i >= args.len() {
        (file, dir, i)
    } else if args[i] == "--file"@ && i + 1 < args.len() {
        output_flags_from(args, i + 2, Some(args[i + 1]), dir)
    } else if args[i] == "--output-directory"@ && i + 1 < args.len() {
        output_flags_from(args, i + 2, file, Some(args[i + 1]))
    } else {
        (file, dir, i)
    }
}

/// The character sequence of an optional string.
pub open spec fn opt_text(o: Option<String>) -> Option<Seq<char>> {
    match o {
        Some(s) => Some(s@),
        None => None,
    }
}

/// Reads `--file <path>` and `--output-directory <dir>` from `args[start..]`, which
/// must come before any other argument. Returns the file, the directory and the index
/// of the first argument after them.
pub fn parse_output_flags(args: &Vec<String>, start: usize) -> (r: (Option<String>, Option<String>, usize))
    ensures
        (opt_text(r.0), opt_text(r.1), r.2 as int) == output_flags_from(views(args@), start as int, None, None),
{
    let mut file: Option<String> = None;
    let mut dir: Option<String> = None;
    let mut i: usize = start;
    let ghost a = views(args@);
    while i < args.len()
        invariant
            a == views(args@),
            start <= i,
            output_flags_from(a, start as int, None, None) == output_flags_from(a, i as int, opt_text(file), opt_text(dir)),
        ensures
            output_flags_from(a, i as int, opt_text(file), opt_text(dir)) == (opt_text(file), opt_text(dir), i as int),
        decreases args@.len() - i,
    {
        let is_file = compare_str(args[i].as_str(), "--file") == StrOrder::Equal;
        let is_dir = compare_str(args[i].as_str(), "--output-directory") == StrOrder::Equal;
        if is_file && i + 1 < args.len() {
            file = Some(args[i + 1].clone());
            i = i + 2;
        } else if is_dir && i + 1 < args.len() {
            dir = Some(args[i + 1].clone());
            i = i + 2;
        } else {
            break;
        }
    }
    (file, dir, i)
}

/// What a command's arguments hold: each option that takes a value, with its value, in
/// order; each flag given; and the other words, in order.
#[derive(Debug, Clone)]
pub struct ScannedArgs {
    pub values: Vec<(String, String)>,
    pub flags: Vec<String>,
    pub words: Vec<String>,
}

/// The scan as plain values.
pub type ScanView = (Seq<(Seq<char>, Seq<char>)>, Seq<Seq<char>>, Seq<Seq<char>>);

/// The arguments from position `i` on, read against the options that take a value and
/// the flags: an option followed by a value takes it; a flag stands alone; any other
/// word starting with `--` is refused (`Unknown option: <word>`); other words are kept.
pub open spec fn scan_from(
    args: Seq<Seq<char>>,
    i: int,
    value_names: Seq<Seq<char>>,
    flag_names: Seq<Seq<char>>,
) -> Result<ScanView, Seq<char>>
    decreases args.len() - i,
{
    if i < 0 || i >= args.len() {
        Ok((Seq::empty(), Seq::empty(), Seq::empty()))
    } else if value_names.contains(args[i]) && i + 1 < args.len() {
        prepend_scan((seq![(args[i], args[i + 1])], Seq::empty(), Seq::empty()), scan_from(args, i + 2, value_names, flag_names))
    } else if flag_names.contains(args[i]) {
        prepend_scan((Seq::empty(), seq![args[i]], Seq::empty()), scan_from(args, i + 1, value_names, flag_names))
    } else if occurs_at(args[i], "--"@, 0) {
        Err("Unknown option: "@ + args[i])
    } else {
        prepend_scan((Seq::empty(), Seq::empty(), seq![args[i]]), scan_from(args, i + 1, value_names, flag_names))
    }
}

/// What was read so far, followed by the rest of a scan.
pub open spec fn prepend_scan(acc: ScanView, rest: Result<ScanView, Seq<char>>) -> Result<ScanView, Seq<char>> {
    match rest {
        Ok(v) => Ok((acc.0 + v.0, acc.1 + v.1, acc.2 + v.2)),
        Err(e) => Err(e),
    }
}

/// A scan's result as plain values.
pub open spec fn scanned_view(s: ScannedArgs) -> ScanView {
    (s.values@.map_values(|kv: (String, String)| (kv.0@, kv.1@)), views(s.flags@), views(s.words@))
}

/// Reads a command's arguments from `start` on against its options.
pub fn scan_options(args: &Vec<String>, start: usize, value_names: &Vec<String>, flag_names: &Vec<String>) -> (r:
    Result<ScannedArgs, String>)
    ensures
        match scan_from(views(args@), start as int, views(value_names@), views(flag_names@)) {
            Ok(v) => r matches Ok(s) && scanned_view(s) == v,
            Err(e) => r matches Err(m) && m@ == e,
        },
{
    let ghost a = views(args@);
    let ghost vn = views(value_names@);
    let ghost fl = views(flag_names@);
    let mut out = ScannedArgs { values: Vec::new(), flags: Vec::new(), words: Vec::new() };
    let mut i: usize = start;
    proof {
        assert(scanned_view(out).0 =~= Seq::<(Seq<char>, Seq<char>)>::empty());
        assert(scanned_view(out).1 =~= Seq::<Seq<char>>::empty());
        assert(scanned_view(out).2 =~= Seq::<Seq<char>>::empty());
        let r0 = scan_from(a, start as int, vn, fl);
        match r0 {
            Ok(v) => {
                assert(v.0 =~= Seq::<(Seq<char>, Seq<char>)>::empty() + v.0);
                assert(v.1 =~= Seq::<Seq<char>>::empty() + v.1);
                assert(v.2 =~= Seq::<Seq<char>>::empty() + v.2);
            },
            Err(_) => {},
        }
    }
    while i < args.len()
        invariant
            a == views(args@),
            vn == views(value_names@),
            fl == views(flag_names@),
            start <= i,
            scan_from(a, start as int, vn, fl) == prepend_scan(scanned_view(out), scan_from(a, i as int, vn, fl)),
        decreases args@.len() - i,
    {
        let ghost before = scanned_view(out);
        let arg = args[i].as_str();
        if contains_name(value_names, arg) && i + 1 < args.len() {
            let ghost rest = scan_from(a, i + 2, vn, fl);
            out.values.push((args[i].clone(), args[i + 1].clone()));
            proof {
                assert(scanned_view(out).0 =~= before.0 + seq![(a[i as int], a[i + 1])]);
                assert(scanned_view(out).1 == before.1);
                assert(scanned_view(out).2 == before.2);
                match rest {
                    Ok(v) => {
                        assert(before.0 + (seq![(a[i as int], a[i + 1])] + v.0) =~= scanned_view(out).0 + v.0);
                        assert(before.1 + (Seq::<Seq<char>>::empty() + v.1) =~= scanned_view(out).1 + v.1);
                        assert(before.2 + (Seq::<Seq<char>>::empty() + v.2) =~= scanned_view(out).2 + v.2);
                    },
                    Err(_) => {},
                }
            }
            i = i + 2;
        } else if contains_name(flag_names, arg) {
            let ghost rest = scan_from(a, i + 1, vn, fl);
            out.flags.push(args[i].clone());
            proof {
                assert(scanned_view(out).1 =~= before.1 + seq![a[i as int]]);
                assert(scanned_view(out).0 == before.0);
                assert(scanned_view(out).2 == before.2);
                match rest {
                    Ok(v) => {
                        assert(before.0 + (Seq::<(Seq<char>, Seq<char>)>::empty() + v.0) =~= scanned_view(out).0 + v.0);
                        assert(before.1 + (seq![a[i as int]] + v.1) =~= scanned_view(out).1 + v.1);
                        assert(before.2 + (Seq::<Seq<char>>::empty() + v.2) =~= scanned_view(out).2 + v.2);
                    },
                    Err(_) => {},
                }
            }
            i = i + 1;
        } else if str_starts_with(arg, "--") {
            return Err(prefixed("Unknown option: ", arg));
        } else {
            let ghost rest = scan_from(a, i + 1, vn, fl);
            out.words.push(args[i].clone());
            proof {
                assert(scanned_view(out).2 =~= before.2 + seq![a[i as int]]);
                assert(scanned_view(out).0 == before.0);
                assert(scanned_view(out).1 == before.1);
                match rest {
                    Ok(v) => {
                        assert(before.0 + (Seq::<(Seq<char>, Seq<char>)>::empty() + v.0) =~= scanned_view(out).0 + v.0);
                        assert(before.1 + (Seq::<Seq<char>>::empty() + v.1) =~= scanned_view(out).1 + v.1);
                        assert(before.2 + (seq![a[i as int]] + v.2) =~= scanned_view(out).2 + v.2);
                    },
                    Err(_) => {},
                }
            }
            i = i + 1;
        }
    }
    proof {
        let v = scanned_view(out);
        assert(v.0 + Seq::<(Seq<char>, Seq<char>)>::empty() =~= v.0);
        assert(v.1 + Seq::<Seq<char>>::empty() =~= v.1);
        assert(v.2 + Seq::<Seq<char>>::empty() =~= v.2);
    }
    Ok(out)
}

/// A scan from position `i` reads only the arguments from `i` on.
pub proof fn lemma_scan_reads_suffix(
    a: Seq<Seq<char>>,
    b: Seq<Seq<char>>,
    i: int,
    value_names: Seq<Seq<char>>,
    flag_names: Seq<Seq<char>>,
)
    requires
        0 <= i,
        a.len() == b.len(),
        forall|k: int| i <= k < a.len() ==> a[k] == b[k],
    ensures
        scan_from(a, i, value_names, flag_names) == scan_from(b, i, value_names, flag_names),
    decreases a.len() - i,
{
    if i < a.len() {
        lemma_scan_reads_suffix(a, b, i + 1, value_names, flag_names);
        if i + 2 <= a.len() {
            lemma_scan_reads_suffix(a, b, i + 2, value_names, flag_names);
        }
    }
}

/// An option with its value may come before or after a word of text: swapping a word
/// with the option pair that follows it changes neither the options read nor the
/// text.
pub proof fn law_option_position_irrelevant(
    a: Seq<Seq<char>>,
    b: Seq<Seq<char>>,
    i: int,
    value_names: Seq<Seq<char>>,
    flag_names: Seq<Seq<char>>,
)
    requires
        0 <= i,
        i + 3 <= a.len(),
        a.len() == b.len(),
        forall|k: int| 0 <= k < i ==> a[k] == b[k],
        forall|k: int| i + 3 <= k < a.len() ==> a[k] == b[k],
        value_names.contains(a[i + 1]),
        !value_names.contains(a[i]),
        !flag_names.contains(a[i]),
        !occurs_at(a[i], "--"@, 0),
        b[i] == a[i + 1],
        b[i + 1] == a[i + 2],
        b[i + 2] == a[i],
    ensures
        scan_from(a, i, value_names, flag_names) == scan_from(b, i, value_names, flag_names),
{
    lemma_scan_reads_suffix(a, b, i + 3, value_names, flag_names);
    let rest = scan_from(a, i + 3, value_names, flag_names);
    let w = a[i];
    let pair = (a[i + 1], a[i + 2]);
    assert(scan_from(a, i + 1, value_names, flag_names) == prepend_scan(
        (seq![pair], Seq::empty(), Seq::empty()),
        rest,
    ));
    assert(scan_from(a, i, value_names, flag_names) == prepend_scan(
        (Seq::empty(), Seq::empty(), seq![w]),
        scan_from(a, i + 1, value_names, flag_names),
    ));
    assert(scan_from(b, i + 2, value_names, flag_names) == prepend_scan(
        (Seq::empty(), Seq::empty(), seq![w]),
        rest,
    ));
    assert(scan_from(b, i, value_names, flag_names) == prepend_scan(
        (seq![pair], Seq::empty(), Seq::empty()),
        scan_from(b, i + 2, value_names, flag_names),
    ));
    match rest {
        Ok(r) => {
            assert(Seq::<(Seq<char>, Seq<char>)>::empty() + (seq![pair] + r.0) =~= seq![pair] + (
            Seq::<(Seq<char>, Seq<char>)>::empty() + r.0));
            assert(Seq::<Seq<char>>::empty() + (Seq::<Seq<char>>::empty() + r.1) =~= Seq::<Seq<char>>::empty() + (
            Seq::<Seq<char>>::empty() + r.1));
            assert(seq![w] + (Seq::<Seq<char>>::empty() + r.2) =~= Seq::<Seq<char>>::empty() + (seq![w] + r.2));
        },
        Err(_) => {},
    }
}

/// The value last given to option `name`, if any.
pub open spec fn last_value_of(values: Seq<(Seq<char>, Seq<char>)>, name: Seq<char>) -> Option<Seq<char>>
    decreases values.len(),
{
    if values.len() == 0 {
        None
    } else if values.last().0 == name {
        Some(values.last().1)
    } else {
        last_value_of(values.drop_last(), name)
    }
}

/// The value last given to an option (a later one replaces an earlier).
pub fn last_value(scanned: &ScannedArgs, name: &str) -> (r: Option<String>)
    ensures
        opt_text(r) == last_value_of(scanned_view(*scanned).0, name@),
{
    let ghost vs = scanned_view(*scanned).0;
    let n = scanned.values.len();
    let mut i: usize = n;
    assert(vs.take(n as int) =~= vs);
    while i > 0
        invariant
            i <= n,
            n == scanned.values@.len(),
            vs == scanned_view(*scanned).0,
            last_value_of(vs, name@) == last_value_of(vs.take(i as int), name@),
        decreases i,
    {
        let ghost t = vs.take(i as int);
        assert(t.drop_last() =~= vs.take(i - 1));
        if compare_str(scanned.values[i - 1].0.as_str(), name) == StrOrder::Equal {
            return Some(scanned.values[i - 1].1.clone());
        }
        i = i - 1;
    }
    None
}

/// Whether flag `name` was given.
pub fn has_flag(scanned: &ScannedArgs, name: &str) -> (b: bool)
    ensures
        b == views(scanned.flags@).contains(name@),
{
    contains_name(&scanned.flags, name)
}

/// Words joined the way most commands build their text: a space goes before a word
/// only when the text so far is not empty.
pub open spec fn compact_text(words: Seq<Seq<char>>) -> Seq<char>
    decreases words.len(),
{
    if words.len() == 0 {
        Seq::empty()
    } else {
        let acc = compact_text(words.drop_last());
        if acc.len() == 0 {
            words.last()
        } else {
            acc + " "@ + words.last()
        }
    }
}

/// The words as one text, a space before each word that follows some text.
pub fn compact_words(words: &Vec<String>) -> (r: String)
    ensures
        r@ == compact_text(views(words@)),
{
    let mut r = String::new();
    let n = words.len();
    let mut i: usize = 0;
    while i < n
        invariant
            n == words@.len(),
            i <= n,
            r@ == compact_text(views(words@).take(i as int)),
        decreases n - i,
    {
        assert(views(words@).take(i + 1).drop_last() =~= views(words@).take(i as int));
        if r.unicode_len() > 0 {
            r.append(" ");
        }
        r.append(words[i].as_str());
        i = i + 1;
    }
    assert(views(words@).take(n as int) =~= views(words@));
    r
}

/// A number option read as an `i32`: none when it is not an integer in range.
pub fn parse_i32_opt(s: &str) -> (r: Option<i32>)
    ensures
        r is Some <==> (integer_text_value(s@) matches Some(v) && i32::MIN <= v <= i32::MAX),
        r matches Some(v) ==> integer_text_value(s@) == Some(v as int),
{
    match parse_i64(s) {
        Ok(v) => {
            if v >= -2147483648 && v <= 2147483647 {
                Some(v as i32)
            } else {
                None
            }
        },
        Err(_) => None,
    }
}

/// A number option read as an `i64`: none when it is not an integer in range.
pub fn parse_i64_opt(s: &str) -> (r: Option<i64>)
    ensures
        r is Some <==> (integer_text_value(s@) matches Some(v) && i64::MIN <= v <= i64::MAX),
        r matches Some(v) ==> integer_text_value(s@) == Some(v as int),
{
    match parse_i64(s) {
        Ok(v) => Some(v),
        Err(_) => None,
    }
}

/// `s` with leading and trailing whitespace removed.
pub open spec fn trimmed(s: Seq<char>) -> Seq<char>
    decreases s.len(),
{
    if s.len() > 0 && unicode_whitespace(s[0]) {
        trimmed(s.skip(1))
    } else if s.len() > 0 && unicode_whitespace(s.last()) {
        trimmed(s.drop_last())
    } else {
        s
    }
}

/// `s.trim()`.
pub fn trim(s: &str) -> (r: String)
    ensures
        r@ == trimmed(s@),
{
    let n = s.unicode_len();
    let mut a: usize = 0;
    let mut b: usize = n;
    assert(s@.subrange(0, n as int) =~= s@);
    while a < b && char_is_whitespace(s.get_char(a))
        invariant
            n == s@.len(),
            a <= b == n,
            trimmed(s@) == trimmed(s@.subrange(a as int, b as int)),
        decreases b - a,
    {
        assert(s@.subrange(a as int, b as int).skip(1) =~= s@.subrange(a + 1, b as int));
        a = a + 1;
    }
    while a < b && char_is_whitespace(s.get_char(b - 1))
        invariant
            n == s@.len(),
            a <= b <= n,
            a < b ==> !unicode_whitespace(s@[a as int]),
            trimmed(s@) == trimmed(s@.subrange(a as int, b as int)),
        decreases b - a,
    {
        assert(s@.subrange(a as int, b as int).drop_last() =~= s@.subrange(a as int, b - 1));
        b = b - 1;
    }
    String::from_str(s.substring_char(a, b))
}

/// The pieces of `s` between commas (an empty `s` is one empty piece).
pub open spec fn comma_pieces(s: Seq<char>) -> Seq<Seq<char>>
    decreases s.len(),
{
    if s.len() == 0 {
        seq![Seq::empty()]
    } else {
        let rest = comma_pieces(s.drop_last());
        if s.last() == ',' {
            rest.push(Seq::empty())
        } else {
            rest.update(rest.len() - 1, rest.last().push(s.last()))
        }
    }
}

/// A comma-separated list as its pieces.
proof fn lemma_comma_pieces_nonempty(s: Seq<char>)
    ensures
        comma_pieces(s).len() >= 1,
    decreases s.len(),
{
    if s.len() > 0 {
        lemma_comma_pieces_nonempty(s.drop_last());
    }
}

/// The pieces of a comma-separated list, each trimmed (`v.split(',')` then `trim`).
pub fn split_commas_trimmed(s: &str) -> (r: Vec<String>)
    ensures
        views(r@) == comma_pieces(s@).map_values(|p: Seq<char>| trimmed(p)),
{
    let n = s.unicode_len();
    let mut pieces: Vec<String> = Vec::new();
    let mut cur = String::new();
    let mut i: usize = 0;
    while i < n
        invariant
            n == s@.len(),
            i <= n,
            views(pieces@).push(cur@) == comma_pieces(s@.take(i as int)),
        decreases n - i,
    {
        proof {
            lemma_comma_pieces_nonempty(s@.take(i as int));
        }
        assert(s@.take(i + 1).drop_last() =~= s@.take(i as int));
        let c = s.get_char(i);
        if c == ',' {
            let done = cur;
            let ghost before = views(pieces@);
            pieces.push(done);
            assert(views(pieces@) =~= before.push(done@));
            cur = String::new();
            assert(views(pieces@).push(cur@) =~= comma_pieces(s@.take(i + 1)));
        } else {
            let ghost before = cur@;
            push_char(&mut cur, c);
            assert(views(pieces@).push(cur@) =~= comma_pieces(s@.take(i + 1)));
        }
        i = i + 1;
    }
    pieces.push(cur);
    assert(s@.take(n as int) =~= s@);
    let mut r: Vec<String> = Vec::new();
    let m = pieces.len();
    let mut j: usize = 0;
    while j < m
        invariant
            m == pieces@.len(),
            j <= m,
            views(r@) == views(pieces@).take(j as int).map_values(|p: Seq<char>| trimmed(p)),
        decreases m - j,
    {
        let t = trim(pieces[j].as_str());
        let ghost before = views(r@);
        r.push(t);
        assert(views(r@) =~= before.push(t@));
        assert(views(r@) =~= views(pieces@).take(j + 1).map_values(|p: Seq<char>| trimmed(p)));
        j = j + 1;
    }
    assert(views(pieces@).take(m as int) =~= views(pieces@));
    r
}


/// The options of a command that reads options: those that take a value, and the
/// flags.
pub open spec fn option_table(command: Seq<char>) -> Option<(Seq<Seq<char>>, Seq<Seq<char>>)> {
    if command == "text_to_audio"@ {
        Some((seq!["--voice"@, "--speed"@, "--vol"@, "--pitch"@, "--emotion"@], Seq::empty()))
    } else if command == "chat"@ {
        Some((seq!["--model"@, "--system"@, "--max-tokens"@, "--temperature"@, "--messages"@], Seq::empty()))
    } else if command == "generate_image"@ {
        Some((
            seq![
                "--model"@,
                "--aspect-ratio"@,
                "--n"@,
                "--style-type"@,
                "--style-weight"@,
                "--width"@,
                "--height"@,
                "--seed"@,
                "--response-format"@,
            ],
            seq!["--no-optimizer"@],
        ))
    } else if command == "generate_video"@ {
        Some((
            seq![
                "--model"@,
                "--resolution"@,
                "--duration"@,
                "--first-frame"@,
                "--last-frame"@,
                "--subject-reference"@,
            ],
            seq!["--wait"@],
        ))
    } else if command == "text_to_audio_stream"@ {
        Some((
            seq![
                "--voice"@,
                "--model"@,
                "--speed"@,
                "--vol"@,
                "--pitch"@,
                "--emotion"@,
                "--sample-rate"@,
                "--bitrate"@,
                "--format"@,
                "--channel"@,
                "--language-boost"@,
            ],
            seq!["--continuous-sound"@],
        ))
    } else if command == "generate_audio_async"@ {
        Some((
            seq![
                "--voice"@,
                "--model"@,
                "--speed"@,
                "--vol"@,
                "--pitch"@,
                "--emotion"@,
                "--sample-rate"@,
                "--bitrate"@,
                "--format"@,
                "--channel"@,
                "--language-boost"@,
                "--text-file-id"@,
            ],
            Seq::empty(),
        ))
    } else if command == "generate_music_cover"@ {
        Some((seq!["--prompt"@, "--lyrics"@], Seq::empty()))
    } else if command == "generate_video_agent"@ {
        Some((seq!["--text-inputs"@, "--media-inputs"@], Seq::empty()))
    } else {
        None
    }
}

/// `generate_video` reads `--wait` as a flag: it is among its flags and not among its
/// options that take a value.
proof fn lemma_generate_video_reads_wait(args: Seq<Seq<char>>, i: int)
    requires
        0 <= i < args.len(),
        args[i] == "--wait"@,
    ensures
        option_table("generate_video"@) matches Some(t) && scan_from(args, i, t.0, t.1) == prepend_scan(
            (Seq::empty(), seq!["--wait"@], Seq::empty()),
            scan_from(args, i + 1, t.0, t.1),
        ),
{
    reveal_strlit("generate_video");
    assert("generate_video"@.len() == 14);
    reveal_strlit("--wait");
    assert("--wait"@.len() == 6);
    reveal_strlit("text_to_audio");
    assert("text_to_audio"@.len() == 13);
    reveal_strlit("chat");
    assert("chat"@.len() == 4);
    reveal_strlit("generate_image");
    assert("generate_image"@.len() == 14);
    reveal_strlit("--model");
    assert("--model"@.len() == 7);
    reveal_strlit("--resolution");
    assert("--resolution"@.len() == 12);
    reveal_strlit("--duration");
    assert("--duration"@.len() == 10);
    reveal_strlit("--first-frame");
    assert("--first-frame"@.len() == 13);
    reveal_strlit("--last-frame");
    assert("--last-frame"@.len() == 12);
    reveal_strlit("--subject-reference");
    assert("--subject-reference"@.len() == 19);
    assert("generate_video"@[9] != "generate_image"@[9]);
    assert("generate_video"@ != "text_to_audio"@);
    assert("generate_video"@ != "chat"@);
    assert("generate_video"@ != "generate_image"@);
    assert(option_table("generate_video"@) is Some);
    let t = option_table("generate_video"@)->Some_0;
    assert(t.0.len() == 6);
    assert(t.0[0].len() != "--wait"@.len());
    assert(t.0[1].len() != "--wait"@.len());
    assert(t.0[2].len() != "--wait"@.len());
    assert(t.0[3].len() != "--wait"@.len());
    assert(t.0[4].len() != "--wait"@.len());
    assert(t.0[5].len() != "--wait"@.len());
    assert(!t.0.contains("--wait"@));
    assert(t.1[0] == "--wait"@);
    assert(t.1.contains("--wait"@));
}

/// `generate_image` reads `--no-optimizer` as a flag: it is among its flags and not among its
/// options that take a value.
proof fn lemma_generate_image_reads_no_optimizer(args: Seq<Seq<char>>, i: int)
    requires
        0 <= i < args.len(),
        args[i] == "--no-optimizer"@,
    ensures
        option_table("generate_image"@) matches Some(t) && scan_from(args, i, t.0, t.1) == prepend_scan(
            (Seq::empty(), seq!["--no-optimizer"@], Seq::empty()),
            scan_from(args, i + 1, t.0, t.1),
        ),
{
    reveal_strlit("generate_image");
    assert("generate_image"@.len() == 14);
    reveal_strlit("--no-optimizer");
    assert("--no-optimizer"@.len() == 14);
    reveal_strlit("text_to_audio");
    assert("text_to_audio"@.len() == 13);
    reveal_strlit("chat");
    assert("chat"@.len() == 4);
    reveal_strlit("--model");
    assert("--model"@.len() == 7);
    reveal_strlit("--aspect-ratio");
    assert("--aspect-ratio"@.len() == 14);
    reveal_strlit("--n");
    assert("--n"@.len() == 3);
    reveal_strlit("--style-type");
    assert("--style-type"@.len() == 12);
    reveal_strlit("--style-weight");
    assert("--style-weight"@.len() == 14);
    reveal_strlit("--width");
    assert("--width"@.len() == 7);
    reveal_strlit("--height");
    assert("--height"@.len() == 8);
    reveal_strlit("--seed");
    assert("--seed"@.len() == 6);
    reveal_strlit("--response-format");
    assert("--response-format"@.len() == 17);

    assert("generate_image"@ != "text_to_audio"@);
    assert("generate_image"@ != "chat"@);
    assert(option_table("generate_image"@) is Some);
    let t = option_table("generate_image"@)->Some_0;
    assert(t.0.len() == 9);
    assert(t.0[0].len() != "--no-optimizer"@.len());
    assert(t.0[1][2] != "--no-optimizer"@[2]);
    assert(t.0[2].len() != "--no-optimizer"@.len());
    assert(t.0[3].len() != "--no-optimizer"@.len());
    assert(t.0[4][2] != "--no-optimizer"@[2]);
    assert(t.0[5].len() != "--no-optimizer"@.len());
    assert(t.0[6].len() != "--no-optimizer"@.len());
    assert(t.0[7].len() != "--no-optimizer"@.len());
    assert(t.0[8].len() != "--no-optimizer"@.len());
    assert(!t.0.contains("--no-optimizer"@));
    assert(t.1[0] == "--no-optimizer"@);
    assert(t.1.contains("--no-optimizer"@));
}

/// `text_to_audio_stream` reads `--continuous-sound` as a flag: it is among its flags and not among its
/// options that take a value.
proof fn lemma_text_to_audio_stream_reads_continuous_sound(args: Seq<Seq<char>>, i: int)
    requires
        0 <= i < args.len(),
        args[i] == "--continuous-sound"@,
    ensures
        option_table("text_to_audio_stream"@) matches Some(t) && scan_from(args, i, t.0, t.1) == prepend_scan(
            (Seq::empty(), seq!["--continuous-sound"@], Seq::empty()),
            scan_from(args, i + 1, t.0, t.1),
        ),
{
    reveal_strlit("text_to_audio_stream");
    assert("text_to_audio_stream"@.len() == 20);
    reveal_strlit("--continuous-sound");
    assert("--continuous-sound"@.len() == 18);
    reveal_strlit("text_to_audio");
    assert("text_to_audio"@.len() == 13);
    reveal_strlit("chat");
    assert("chat"@.len() == 4);
    reveal_strlit("generate_image");
    assert("generate_image"@.len() == 14);
    reveal_strlit("generate_video");
    assert("generate_video"@.len() == 14);
    reveal_strlit("--voice");
    assert("--voice"@.len() == 7);
    reveal_strlit("--model");
    assert("--model"@.len() == 7);
    reveal_strlit("--speed");
    assert("--speed"@.len() == 7);
    reveal_strlit("--vol");
    assert("--vol"@.len() == 5);
    reveal_strlit("--pitch");
    assert("--pitch"@.len() == 7);
    reveal_strlit("--emotion");
    assert("--emotion"@.len() == 9);
    reveal_strlit("--sample-rate");
    assert("--sample-rate"@.len() == 13);
    reveal_strlit("--bitrate");
    assert("--bitrate"@.len() == 9);
    reveal_strlit("--format");
    assert("--format"@.len() == 8);
    reveal_strlit("--channel");
    assert("--channel"@.len() == 9);
    reveal_strlit("--language-boost");
    assert("--language-boost"@.len() == 16);

    assert("text_to_audio_stream"@ != "text_to_audio"@);
    assert("text_to_audio_stream"@ != "chat"@);
    assert("text_to_audio_stream"@ != "generate_image"@);
    assert("text_to_audio_stream"@ != "generate_video"@);
    assert(option_table("text_to_audio_stream"@) is Some);
    let t = option_table("text_to_audio_stream"@)->Some_0;
    assert(t.0.len() == 11);
    assert(t.0[0].len() != "--continuous-sound"@.len());
    assert(t.0[1].len() != "--continuous-sound"@.len());
    assert(t.0[2].len() != "--continuous-sound"@.len());
    assert(t.0[3].len() != "--continuous-sound"@.len());
    assert(t.0[4].len() != "--continuous-sound"@.len());
    assert(t.0[5].len() != "--continuous-sound"@.len());
    assert(t.0[6].len() != "--continuous-sound"@.len());
    assert(t.0[7].len() != "--continuous-sound"@.len());
    assert(t.0[8].len() != "--continuous-sound"@.len());
    assert(t.0[9].len() != "--continuous-sound"@.len());
    assert(t.0[10].len() != "--continuous-sound"@.len());
    assert(!t.0.contains("--continuous-sound"@));
    assert(t.1[0] == "--continuous-sound"@);
    assert(t.1.contains("--continuous-sound"@));
}

/// The flags the commands document are read as flags wherever they stand among the
/// arguments: `--wait` by `generate_video`, `--no-optimizer` by `generate_image`,
/// `--continuous-sound` by `text_to_audio_stream`. Each is recorded as a flag and the
/// scan goes on with the next argument; none is refused as an unknown option.
pub proof fn law_documented_flags_are_read(args: Seq<Seq<char>>, i: int)
    requires
        0 <= i < args.len(),
    ensures
        args[i] == "--wait"@ ==> (option_table("generate_video"@) matches Some(t) && scan_from(args, i, t.0, t.1)
            == prepend_scan((Seq::empty(), seq!["--wait"@], Seq::empty()), scan_from(args, i + 1, t.0, t.1))),
        args[i] == "--no-optimizer"@ ==> (option_table("generate_image"@) matches Some(t) && scan_from(args, i, t.0, t.1)
            == prepend_scan((Seq::empty(), seq!["--no-optimizer"@], Seq::empty()), scan_from(args, i + 1, t.0, t.1))),
        args[i] == "--continuous-sound"@ ==> (option_table("text_to_audio_stream"@) matches Some(t) && scan_from(
            args,
            i,
            t.0,
            t.1,
        ) == prepend_scan((Seq::empty(), seq!["--continuous-sound"@], Seq::empty()), scan_from(args, i + 1, t.0, t.1))),
{
    if args[i] == "--wait"@ {
        lemma_generate_video_reads_wait(args, i);
    }
    if args[i] == "--no-optimizer"@ {
        lemma_generate_image_reads_no_optimizer(args, i);
    }
    if args[i] == "--continuous-sound"@ {
        lemma_text_to_audio_stream_reads_continuous_sound(args, i);
    }
}

/// The strings of a list of literals.
fn strings_of(names: &[&str]) -> (r: Vec<String>)
    ensures
        views(r@) == names@.map_values(|n: &str| n@),
{
    let mut r: Vec<String> = Vec::new();
    let n = names.len();
    let mut i: usize = 0;
    while i < n
        invariant
            n == names@.len(),
            i <= n,
            views(r@) == names@.take(i as int).map_values(|n: &str| n@),
        decreases n - i,
    {
        let ghost before = views(r@);
        r.push(String::from_str(names[i]));
        assert(views(r@) =~= before.push(names@[i as int]@));
        assert(views(r@) =~= names@.take(i + 1).map_values(|n: &str| n@));
        i = i + 1;
    }
    assert(names@.take(n as int) =~= names@);
    r
}

/// The options a command reads: those that take a value, and the flags; none for a
/// command that reads no options.
pub fn command_options(command: &str) -> (r: Option<(Vec<String>, Vec<String>)>)
    ensures
        match option_table(command@) {
            Some(t) => r matches Some(o) && views(o.0@) == t.0 && views(o.1@) == t.1,
            None => r is None,
        },
{
    let empty: [&str; 0] = [];
    let r = if compare_str(command, "text_to_audio") == StrOrder::Equal {
        let v = ["--voice", "--speed", "--vol", "--pitch", "--emotion"];
        Some((strings_of(&v), strings_of(&empty)))
    } else if compare_str(command, "chat") == StrOrder::Equal {
        let v = ["--model", "--system", "--max-tokens", "--temperature", "--messages"];
        Some((strings_of(&v), strings_of(&empty)))
    } else if compare_str(command, "generate_image") == StrOrder::Equal {
        let v = [
            "--model",
            "--aspect-ratio",
            "--n",
            "--style-type",
            "--style-weight",
            "--width",
            "--height",
            "--seed",
            "--response-format",
        ];
        let f = ["--no-optimizer"];
        Some((strings_of(&v), strings_of(&f)))
    } else if compare_str(command, "generate_video") == StrOrder::Equal {
        let v = ["--model", "--resolution", "--duration", "--first-frame", "--last-frame", "--subject-reference"];
        let f = ["--wait"];
        Some((strings_of(&v), strings_of(&f)))
    } else if compare_str(command, "text_to_audio_stream") == StrOrder::Equal {
        let v = [
            "--voice",
            "--model",
            "--speed",
            "--vol",
            "--pitch",
            "--emotion",
            "--sample-rate",
            "--bitrate",
            "--format",
            "--channel",
            "--language-boost",
        ];
        let f = ["--continuous-sound"];
        Some((strings_of(&v), strings_of(&f)))
    } else if compare_str(command, "generate_audio_async") == StrOrder::Equal {
        let v = [
            "--voice",
            "--model",
            "--speed",
            "--vol",
            "--pitch",
            "--emotion",
            "--sample-rate",
            "--bitrate",
            "--format",
            "--channel",
            "--language-boost",
            "--text-file-id",
        ];
        Some((strings_of(&v), strings_of(&empty)))
    } else if compare_str(command, "generate_music_cover") == StrOrder::Equal {
        let v = ["--prompt", "--lyrics"];
        Some((strings_of(&v), strings_of(&empty)))
    } else if compare_str(command, "generate_video_agent") == StrOrder::Equal {
        let v = ["--text-inputs", "--media-inputs"];
        Some((strings_of(&v), strings_of(&empty)))
    } else {
        None
    };
    proof {
        match option_table(command@) {
            Some(t) => {
                assert(t.0 =~= views(r->Some_0.0@));
                assert(t.1 =~= views(r->Some_0.1@));
            },
            None => {},
        }
    }
    r
}

} // verus!
