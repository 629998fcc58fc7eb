//! The texts that the tools answer with, built from provider results.

use vstd::prelude::*;
use vstd::string::*;

use crate::error::prefixed;
use crate::lexorder::{compare_str, lemma_lex_lt_irreflexive, lemma_lex_lt_transitive, lex_lt, StrOrder};
use crate::providers::{
    ChatOutput, FileInfoResult, LyricsResult, MediaOutput, SearchOutput, VoiceListResult,
};
use crate::text::{decimal, i64_to_string, join, joined, signed_decimal, u64_to_string, views};

verus! {

/// One line of the voice list: an id and a label after a dash.
pub open spec fn voice_line(id: Seq<char>, label: Seq<char>) -> Seq<char> {
    "  "@ + id + " — "@ + label
}

/// The lines of the voice list: a header and one line per voice for each kind, then
/// the counts.
pub open spec fn voice_list_lines(r: VoiceListResult) -> Seq<Seq<char>> {
    seq!["=== System Voices ==="@] + r.system@.map_values(
        |v: crate::providers::VoiceInfoOutput| voice_line(v.voice_id@, v.voice_name@),
    ) + seq!["=== Cloned Voices ==="@] + r.cloned@.map_values(
        |v: crate::providers::VoiceInfoOutput| voice_line(v.voice_id@, v.voice_name@),
    ) + seq!["=== Designed Voices ==="@] + r.designed@.map_values(
        |v: crate::providers::VoiceDesignedOutput| voice_line(v.voice_id@, v.description@),
    ) + seq![
        decimal(r.system@.len()) + " system voices + "@ + decimal(r.cloned@.len()) + " cloned voices + "@
            + decimal(r.designed@.len()) + " designed voices"@,
    ]
}

/// Every voice of every kind has its own line in the list, in order, as two spaces, the
/// voice id, ` — ` and its name (a designed voice: its description), under the header of
/// its kind; the list has one line per voice besides the three headers and the count.
pub proof fn law_voice_list_lists_every_voice(r: VoiceListResult)
    ensures
        voice_list_lines(r).len() == r.system@.len() + r.cloned@.len() + r.designed@.len() + 4,
        voice_list_lines(r)[0] == "=== System Voices ==="@,
        voice_list_lines(r)[r.system@.len() + 1int] == "=== Cloned Voices ==="@,
        voice_list_lines(r)[r.system@.len() + r.cloned@.len() + 2int] == "=== Designed Voices ==="@,
        forall|i: int| 0 <= i < r.system@.len() ==> #[trigger] voice_list_lines(r)[1 + i] == "  "@
            + r.system@[i].voice_id@ + " — "@ + r.system@[i].voice_name@,
        forall|i: int| 0 <= i < r.cloned@.len() ==> #[trigger] voice_list_lines(r)[r.system@.len() + 2 + i]
            == "  "@ + r.cloned@[i].voice_id@ + " — "@ + r.cloned@[i].voice_name@,
        forall|i: int| 0 <= i < r.designed@.len() ==> #[trigger] voice_list_lines(r)[r.system@.len()
            + r.cloned@.len() + 3 + i] == "  "@ + r.designed@[i].voice_id@ + " — "@ + r.designed@[i].description@,
{
    let ns = r.system@.len() as int;
    let nc = r.cloned@.len() as int;
    let l = voice_list_lines(r);
    assert forall|i: int| 0 <= i < ns implies #[trigger] l[1 + i] == "  "@ + r.system@[i].voice_id@ + " — "@
        + r.system@[i].voice_name@ by {}
    assert forall|i: int| 0 <= i < nc implies #[trigger] l[ns + 2 + i] == "  "@ + r.cloned@[i].voice_id@ + " — "@
        + r.cloned@[i].voice_name@ by {}
    assert forall|i: int| 0 <= i < r.designed@.len() implies #[trigger] l[ns + nc + 3 + i] == "  "@
        + r.designed@[i].voice_id@ + " — "@ + r.designed@[i].description@ by {}
}

/// Appends `s` to `lines`.
fn push_line(lines: &mut Vec<String>, s: String)
    ensures
        views(final(lines)@) == views(old(lines)@).push(s@),
{
    let ghost before = lines@;
    lines.push(s);
    assert(views(lines@) =~= views(before).push(s@));
}

/// The voice list as text, one line each.
pub fn format_voice_list(resp: &VoiceListResult) -> (r: String)
    ensures
        r@ == joined(voice_list_lines(*resp), "\n"@),
{
    let mut lines: Vec<String> = Vec::new();
    push_line(&mut lines, String::from_str("=== System Voices ==="));
    let ghost head = views(lines@);
    let n = resp.system.len();
    let mut i: usize = 0;
    while i < n
        invariant
            n == resp.system@.len(),
            i <= n,
            views(lines@) == head + resp.system@.take(i as int).map_values(
                |v: crate::providers::VoiceInfoOutput| voice_line(v.voice_id@, v.voice_name@),
            ),
        decreases n - i,
    {
        let v = &resp.system[i];
        let mut l = prefixed("  ", v.voice_id.as_str());
        l.append(" — ");
        l.append(v.voice_name.as_str());
        push_line(&mut lines, l);
        assert(resp.system@.take(i + 1) =~= resp.system@.take(i as int).push(resp.system@[i as int]));
        i = i + 1;
    }
    assert(resp.system@.take(n as int) =~= resp.system@);
    push_line(&mut lines, String::from_str("=== Cloned Voices ==="));
    let ghost head = views(lines@);
    let n = resp.cloned.len();
    let mut i: usize = 0;
    while i < n
        invariant
            n == resp.cloned@.len(),
            i <= n,
            views(lines@) == head + resp.cloned@.take(i as int).map_values(
                |v: crate::providers::VoiceInfoOutput| voice_line(v.voice_id@, v.voice_name@),
            ),
        decreases n - i,
    {
        let v = &resp.cloned[i];
        let mut l = prefixed("  ", v.voice_id.as_str());
        l.append(" — ");
        l.append(v.voice_name.as_str());
        push_line(&mut lines, l);
        assert(resp.cloned@.take(i + 1) =~= resp.cloned@.take(i as int).push(resp.cloned@[i as int]));
        i = i + 1;
    }
    assert(resp.cloned@.take(n as int) =~= resp.cloned@);
    push_line(&mut lines, String::from_str("=== Designed Voices ==="));
    let ghost head = views(lines@);
    let n = resp.designed.len();
    let mut i: usize = 0;
    while i < n
        invariant
            n == resp.designed@.len(),
            i <= n,
            views(lines@) == head + resp.designed@.take(i as int).map_values(
                |v: crate::providers::VoiceDesignedOutput| voice_line(v.voice_id@, v.description@),
            ),
        decreases n - i,
    {
        let v = &resp.designed[i];
        let mut l = prefixed("  ", v.voice_id.as_str());
        l.append(" — ");
        l.append(v.description.as_str());
        push_line(&mut lines, l);
        assert(resp.designed@.take(i + 1) =~= resp.designed@.take(i as int).push(resp.designed@[i as int]));
        i = i + 1;
    }
    assert(resp.designed@.take(n as int) =~= resp.designed@);
    let mut l = u64_to_string(resp.system.len() as u64);
    l.append(" system voices + ");
    l.append(u64_to_string(resp.cloned.len() as u64).as_str());
    l.append(" cloned voices + ");
    l.append(u64_to_string(resp.designed.len() as u64).as_str());
    l.append(" designed voices");
    push_line(&mut lines, l);
    assert(views(lines@) =~= voice_list_lines(*resp));
    join(&lines, "\n")
}

/// An optional integer as text, or `N/A`.
pub open spec fn id_or_na(v: Option<i64>) -> Seq<char> {
    match v {
        Some(x) => signed_decimal(x as int),
        None => "N/A"@,
    }
}

/// The line of one file in a file list.
pub open spec fn file_line(f: FileInfoResult) -> Seq<char> {
    "  file_id: "@ + id_or_na(f.file_id) + ", Name: "@ + match f.filename {
        Some(n) => n@,
        None => "unknown"@,
    } + ", Size: "@ + match f.bytes {
        Some(b) => signed_decimal(b as int) + " bytes"@,
        None => "N/A"@,
    }
}

/// The text of a file list: a note when there are no files, else a header with the
/// count and one line per file.
pub open spec fn file_list_text(purpose: Seq<char>, files: Seq<FileInfoResult>) -> Seq<char> {
    if files.len() == 0 {
        "No files under purpose '"@ + purpose + "'."@
    } else {
        joined(
            seq!["Files under purpose '"@ + purpose + "' ("@ + decimal(files.len()) + " total):"@]
                + files.map_values(|f: FileInfoResult| file_line(f)),
            "\n"@,
        )
    }
}

/// An optional integer as text, or `N/A`.
fn opt_i64_text(v: Option<i64>) -> (r: String)
    ensures
        r@ == id_or_na(v),
{
    match v {
        Some(x) => i64_to_string(x),
        None => String::from_str("N/A"),
    }
}

/// The text that lists the files under a purpose.
pub fn list_files_text(purpose: &str, files: &Vec<FileInfoResult>) -> (r: String)
    ensures
        r@ == file_list_text(purpose@, files@),
{
    if files.len() == 0 {
        let mut m = prefixed("No files under purpose '", purpose);
        m.append("'.");
        return m;
    }
    let mut lines: Vec<String> = Vec::new();
    let mut h = prefixed("Files under purpose '", purpose);
    h.append("' (");
    h.append(u64_to_string(files.len() as u64).as_str());
    h.append(" total):");
    push_line(&mut lines, h);
    let ghost head = views(lines@);
    let n = files.len();
    let mut i: usize = 0;
    while i < n
        invariant
            n == files@.len(),
            i <= n,
            views(lines@) == head + files@.take(i as int).map_values(|f: FileInfoResult| file_line(f)),
        decreases n - i,
    {
        let f = &files[i];
        let mut l = prefixed("  file_id: ", opt_i64_text(f.file_id).as_str());
        l.append(", Name: ");
        match &f.filename {
            Some(name) => l.append(name.as_str()),
            None => l.append("unknown"),
        }
        l.append(", Size: ");
        match f.bytes {
            Some(b) => {
                l.append(i64_to_string(b).as_str());
                l.append(" bytes");
            },
            None => l.append("N/A"),
        }
        assert(l@ == file_line(files@[i as int]));
        push_line(&mut lines, l);
        assert(files@.take(i + 1) =~= files@.take(i as int).push(files@[i as int]));
        assert(files@.take(i + 1).map_values(|f: FileInfoResult| file_line(f)) =~= files@.take(i as int).map_values(
            |f: FileInfoResult| file_line(f),
        ).push(file_line(files@[i as int])));
        i = i + 1;
    }
    assert(files@.take(n as int) =~= files@);
    assert(views(lines@) =~= seq![
        "Files under purpose '"@ + purpose@ + "' ("@ + decimal(files@.len()) + " total):"@,
    ] + files@.map_values(|f: FileInfoResult| file_line(f)));
    join(&lines, "\n")
}

/// The lines that describe one file: a header, then name, size, purpose and download
/// URL, each when known.
pub open spec fn file_info_lines(file_id: i64, f: FileInfoResult) -> Seq<Seq<char>> {
    seq!["File info (file_id: "@ + signed_decimal(file_id as int) + "):"@] + match f.filename {
        Some(n) => seq!["  Name: "@ + n@],
        None => Seq::empty(),
    } + match f.bytes {
        Some(b) => seq!["  Size: "@ + signed_decimal(b as int) + " bytes"@],
        None => Seq::empty(),
    } + match f.purpose {
        Some(p) => seq!["  Purpose: "@ + p@],
        None => Seq::empty(),
    } + match f.download_url {
        Some(u) => seq!["  Download URL: "@ + u@],
        None => Seq::empty(),
    }
}

/// Every known field of a file is reported, each on its own line after the heading
/// `File info (file_id: N):`, and nothing else: `  Name: `, `  Size: ... bytes`,
/// `  Purpose: ` and `  Download URL: ` lines for the fields that are present.
pub proof fn law_file_info_reports_every_field(file_id: i64, f: FileInfoResult)
    ensures
        file_info_lines(file_id, f).len() == 1 + (if f.filename is Some { 1int } else { 0 }) + (if f.bytes is Some {
            1int
        } else {
            0
        }) + (if f.purpose is Some { 1int } else { 0 }) + (if f.download_url is Some { 1int } else { 0 }),
        file_info_lines(file_id, f)[0] == "File info (file_id: "@ + signed_decimal(file_id as int) + "):"@,
        f.filename matches Some(n) ==> file_info_lines(file_id, f).contains("  Name: "@ + n@),
        f.bytes matches Some(b) ==> file_info_lines(file_id, f).contains("  Size: "@ + signed_decimal(b as int) + " bytes"@),
        f.purpose matches Some(p) ==> file_info_lines(file_id, f).contains("  Purpose: "@ + p@),
        f.download_url matches Some(u) ==> file_info_lines(file_id, f).last() == "  Download URL: "@ + u@,
        f.download_url matches Some(u) ==> file_info_lines(file_id, f).contains("  Download URL: "@ + u@),
{
    let l = file_info_lines(file_id, f);
    let n1: int = if f.filename is Some { 1 } else { 0 };
    let n2: int = if f.bytes is Some { 1 } else { 0 };
    let n3: int = if f.purpose is Some { 1 } else { 0 };
    if let Some(n) = f.filename {
        assert(l[1] == "  Name: "@ + n@);
    }
    if let Some(b) = f.bytes {
        assert(l[1 + n1] == "  Size: "@ + signed_decimal(b as int) + " bytes"@);
    }
    if let Some(p) = f.purpose {
        assert(l[1 + n1 + n2] == "  Purpose: "@ + p@);
    }
    if let Some(u) = f.download_url {
        assert(l[1 + n1 + n2 + n3] == "  Download URL: "@ + u@);
    }
}

/// The text that describes one file.
pub fn retrieve_file_text(file_id: i64, f: &FileInfoResult) -> (r: String)
    ensures
        r@ == joined(file_info_lines(file_id, *f), "\n"@),
{
    let mut lines: Vec<String> = Vec::new();
    let mut h = prefixed("File info (file_id: ", i64_to_string(file_id).as_str());
    h.append("):");
    push_line(&mut lines, h);
    match &f.filename {
        Some(n) => push_line(&mut lines, prefixed("  Name: ", n.as_str())),
        None => {},
    }
    match f.bytes {
        Some(b) => {
            let mut l = prefixed("  Size: ", i64_to_string(b).as_str());
            l.append(" bytes");
            push_line(&mut lines, l);
        },
        None => {},
    }
    match &f.purpose {
        Some(p) => push_line(&mut lines, prefixed("  Purpose: ", p.as_str())),
        None => {},
    }
    match &f.download_url {
        Some(u) => push_line(&mut lines, prefixed("  Download URL: ", u.as_str())),
        None => {},
    }
    assert(views(lines@) =~= file_info_lines(file_id, *f));
    join(&lines, "\n")
}

/// The text that confirms a deleted file.
pub fn delete_file_text(file_id: i64, purpose: &str) -> (r: String)
    ensures
        r@ == "File deleted: file_id="@ + signed_decimal(file_id as int) + ", purpose="@ + purpose@,
{
    let mut m = prefixed("File deleted: file_id=", i64_to_string(file_id).as_str());
    m.append(", purpose=");
    m.append(purpose);
    m
}

/// The lines of one search result: numbered title, URL, snippet, the date when known,
/// and a blank line.
pub open spec fn search_result_lines(i: int, r: crate::providers::SearchResultItem) -> Seq<Seq<char>> {
    seq![decimal((i + 1) as nat) + ". "@ + r.title@, "   URL: "@ + r.url@, "   "@ + r.snippet@] + match r.date {
        Some(d) => seq!["   Date: "@ + d@],
        None => Seq::empty(),
    } + seq![Seq::empty()]
}

/// The lines of the results `0..k`.
pub open spec fn search_results_lines(results: Seq<crate::providers::SearchResultItem>, k: int) -> Seq<Seq<char>>
    decreases k,
{
    if k <= 0 {
        Seq::empty()
    } else {
        search_results_lines(results, k - 1) + search_result_lines(k - 1, results[k - 1])
    }
}

/// The lines of the related searches, under a header, when there are any.
pub open spec fn related_lines(related: Seq<String>) -> Seq<Seq<char>> {
    if related.len() == 0 {
        Seq::empty()
    } else {
        seq!["Related searches:"@] + related.map_values(|q: String| "  - "@ + q@)
    }
}

/// The text of a web search: a header with the count, a blank line, the results, and
/// the related searches.
pub open spec fn search_text(o: SearchOutput) -> Seq<char> {
    joined(
        seq!["Search results ("@ + decimal(o.results@.len()) + "):"@, Seq::empty()] + search_results_lines(
            o.results@,
            o.results@.len() as int,
        ) + related_lines(o.related@),
        "\n"@,
    )
}

/// The text of a web search.
pub fn web_search_text(output: &SearchOutput) -> (r: String)
    ensures
        r@ == search_text(*output),
{
    proof {
        reveal_strlit("");
    }
    let mut lines: Vec<String> = Vec::new();
    let mut h = prefixed("Search results (", u64_to_string(output.results.len() as u64).as_str());
    h.append("):");
    push_line(&mut lines, h);
    push_line(&mut lines, String::new());
    let ghost head = views(lines@);
    assert(head =~= seq!["Search results ("@ + decimal(output.results@.len()) + "):"@, Seq::<char>::empty()]);
    let n = output.results.len();
    let mut i: usize = 0;
    while i < n
        invariant
            n == output.results@.len(),
            i <= n,
            views(lines@) == head + search_results_lines(output.results@, i as int),
        decreases n - i,
    {
        let ghost before = views(lines@);
        let r = &output.results[i];
        let mut l = u64_to_string((i + 1) as u64);
        l.append(". ");
        l.append(r.title.as_str());
        push_line(&mut lines, l);
        push_line(&mut lines, prefixed("   URL: ", r.url.as_str()));
        push_line(&mut lines, prefixed("   ", r.snippet.as_str()));
        match &r.date {
            Some(d) => push_line(&mut lines, prefixed("   Date: ", d.as_str())),
            None => {},
        }
        push_line(&mut lines, String::new());
        assert(views(lines@) =~= before + search_result_lines(i as int, output.results@[i as int]));
        i = i + 1;
    }
    let ghost mid = views(lines@);
    if output.related.len() > 0 {
        push_line(&mut lines, String::from_str("Related searches:"));
        let ghost head2 = views(lines@);
        let m = output.related.len();
        let mut j: usize = 0;
        while j < m
            invariant
                m == output.related@.len(),
                j <= m,
                views(lines@) == head2 + output.related@.take(j as int).map_values(|q: String| "  - "@ + q@),
            decreases m - j,
        {
            push_line(&mut lines, prefixed("  - ", output.related[j].as_str()));
            assert(output.related@.take(j + 1) =~= output.related@.take(j as int).push(output.related@[j as int]));
            j = j + 1;
        }
        assert(output.related@.take(m as int) =~= output.related@);
    }
    assert(views(lines@) =~= mid + related_lines(output.related@));
    assert(views(lines@) =~= seq!["Search results ("@ + decimal(output.results@.len()) + "):"@, Seq::<char>::empty()]
        + search_results_lines(output.results@, output.results@.len() as int) + related_lines(output.related@));
    join(&lines, "\n")
}

/// The lines of generated lyrics: title, style tags and lyrics, each when present.
pub open spec fn lyrics_lines(r: LyricsResult) -> Seq<Seq<char>> {
    let title = match r.title {
        Some(t) => seq!["Title: "@ + t@],
        None => Seq::empty(),
    };
    let tags = match r.style_tags {
        Some(t) => seq!["Style tags: "@ + t@],
        None => Seq::empty(),
    };
    let lyrics = match r.lyrics {
        Some(l) => seq!["Lyrics:\n"@ + l@],
        None => Seq::empty(),
    };
    title + tags + lyrics
}

/// The answer when generated lyrics have no part at all.
pub const LYRICS_DONE: &'static str = "歌词生成成功。";

/// The text of generated lyrics; a fixed note when no part is present.
pub fn lyrics_text(resp: &LyricsResult) -> (r: String)
    ensures
        lyrics_lines(*resp).len() == 0 ==> r@ == LYRICS_DONE@,
        lyrics_lines(*resp).len() > 0 ==> r@ == joined(lyrics_lines(*resp), "\n"@),
{
    let mut lines: Vec<String> = Vec::new();
    match &resp.title {
        Some(t) => push_line(&mut lines, prefixed("Title: ", t.as_str())),
        None => {},
    }
    match &resp.style_tags {
        Some(t) => push_line(&mut lines, prefixed("Style tags: ", t.as_str())),
        None => {},
    }
    match &resp.lyrics {
        Some(l) => push_line(&mut lines, prefixed("Lyrics:\n", l.as_str())),
        None => {},
    }
    assert(views(lines@) =~= lyrics_lines(*resp));
    if lines.len() == 0 {
        String::from_str(LYRICS_DONE)
    } else {
        join(&lines, "\n")
    }
}

/// The token counts of a chat answer, 0 when not reported.
pub open spec fn token_count(t: Option<i32>) -> int {
    match t {
        Some(n) => n as int,
        None => 0,
    }
}

/// The text of a chat answer: its text, followed by a footer with the model and token
/// counts when either count is positive.
pub fn chat_text(output: &ChatOutput) -> (r: String)
    ensures
        token_count(output.input_tokens) > 0 || token_count(output.output_tokens) > 0 ==> r@
            == output.text@ + "\n\n[model: "@ + output.model@ + ", input: "@ + signed_decimal(
            token_count(output.input_tokens),
        ) + " tokens, output: "@ + signed_decimal(token_count(output.output_tokens)) + " tokens]"@,
        !(token_count(output.input_tokens) > 0 || token_count(output.output_tokens) > 0) ==> r@ == output.text@,
{
    let input_tokens: i32 = match output.input_tokens {
        Some(n) => n,
        None => 0,
    };
    let output_tokens: i32 = match output.output_tokens {
        Some(n) => n,
        None => 0,
    };
    let mut r = output.text.clone();
    if input_tokens > 0 || output_tokens > 0 {
        r.append("\n\n[model: ");
        r.append(output.model.as_str());
        r.append(", input: ");
        r.append(i64_to_string(input_tokens as i64).as_str());
        r.append(" tokens, output: ");
        r.append(i64_to_string(output_tokens as i64).as_str());
        r.append(" tokens]");
    }
    r
}


// ------------------------------------------------------------------
// Account usage
// ------------------------------------------------------------------

/// The fields are in order of their names (names compared character by character).
pub open spec fn keys_sorted(s: Seq<(String, String)>) -> bool {
    forall|i: int, j: int| 0 <= i < j < s.len() ==> !lex_lt(#[trigger] s[j].0@, #[trigger] s[i].0@)
}

/// `compare_str` answers `Less` exactly when the first string is lexicographically
/// smaller.
proof fn lemma_less_iff(a: Seq<char>, b: Seq<char>, r: StrOrder)
    requires
        r == StrOrder::Less ==> lex_lt(a, b),
        r == StrOrder::Equal <==> a == b,
        r == StrOrder::Greater ==> lex_lt(b, a),
    ensures
        r == StrOrder::Less <==> lex_lt(a, b),
{
    if lex_lt(a, b) {
        lemma_lex_lt_irreflexive(a);
        if r == StrOrder::Greater {
            lemma_lex_lt_transitive(a, b, a);
        }
    }
}

/// Inserting an entry before the first larger key keeps the keys in order.
proof fn lemma_insert_sorted(s: Seq<(String, String)>, p: int, x: (String, String))
    requires
        keys_sorted(s),
        0 <= p <= s.len(),
        forall|k: int| 0 <= k < p ==> !lex_lt(x.0@, #[trigger] s[k].0@),
        p < s.len() ==> lex_lt(x.0@, s[p].0@),
    ensures
        keys_sorted(s.insert(p, x)),
{
    let t = s.insert(p, x);
    assert forall|i: int, j: int| 0 <= i < j < t.len() implies !lex_lt(#[trigger] t[j].0@, #[trigger] t[i].0@) by {
        if j < p {
            assert(t[i] == s[i] && t[j] == s[j]);
        } else if j == p {
            assert(t[i] == s[i] && t[j] == x);
        } else if i < p {
            assert(t[i] == s[i] && t[j] == s[j - 1]);
        } else if i == p {
            assert(t[i] == x && t[j] == s[j - 1]);
            if lex_lt(s[j - 1].0@, x.0@) {
                lemma_lex_lt_transitive(s[j - 1].0@, x.0@, s[p].0@);
                if j - 1 == p {
                    lemma_lex_lt_irreflexive(s[p].0@);
                }
            }
        } else {
            assert(t[i] == s[i - 1] && t[j] == s[j - 1]);
        }
    }
}

/// The fields ordered by name: the same fields, keys in order.
pub fn sort_fields(fields: &Vec<(String, String)>) -> (r: Vec<(String, String)>)
    ensures
        keys_sorted(r@),
        r@.to_multiset() == fields@.to_multiset(),
{
    let mut sorted: Vec<(String, String)> = Vec::new();
    let n = fields.len();
    let mut i: usize = 0;
    proof {
        assert(fields@.take(0) =~= Seq::<(String, String)>::empty());
    }
    while i < n
        invariant
            n == fields@.len(),
            i <= n,
            keys_sorted(sorted@),
            sorted@.to_multiset() == fields@.take(i as int).to_multiset(),
        decreases n - i,
    {
        let x = (fields[i].0.clone(), fields[i].1.clone());
        assert(x == fields@[i as int]);
        let m = sorted.len();
        let mut p: usize = 0;
        while p < m && compare_str(x.0.as_str(), sorted[p].0.as_str()) != StrOrder::Less
            invariant
                m == sorted@.len(),
                p <= m,
                forall|k: int| 0 <= k < p ==> !lex_lt(x.0@, #[trigger] sorted@[k].0@),
            decreases m - p,
        {
            proof {
                lemma_less_iff(x.0@, sorted@[p as int].0@, str_order_of(x.0@, sorted@[p as int].0@));
            }
            p = p + 1;
        }
        proof {
            if p < m {
                lemma_less_iff(x.0@, sorted@[p as int].0@, str_order_of(x.0@, sorted@[p as int].0@));
            }
            lemma_insert_sorted(sorted@, p as int, x);
            vstd::seq_lib::to_multiset_insert(sorted@, p as int, x);
            vstd::seq_lib::to_multiset_build(fields@.take(i as int), x);
            assert(fields@.take(i + 1) =~= fields@.take(i as int).push(x));
        }
        sorted.insert(p, x);
        i = i + 1;
    }
    assert(fields@.take(n as int) =~= fields@);
    sorted
}

/// How `compare_str` orders two strings.
spec fn str_order_of(a: Seq<char>, b: Seq<char>) -> StrOrder {
    crate::lexorder::str_order(a, b)
}

/// One line of the usage report.
pub open spec fn usage_line(kv: (String, String)) -> Seq<char> {
    kv.0@ + ": "@ + kv.1@
}

/// The usage report of fields in this order: a fixed note when there are none.
pub open spec fn usage_report(sorted: Seq<(String, String)>) -> Seq<char> {
    if sorted.len() == 0 {
        "Query succeeded."@
    } else {
        "Account usage:\n"@ + joined(sorted.map_values(|kv: (String, String)| usage_line(kv)), "\n"@)
    }
}

/// The usage report: one `name: value` line per field, in order of the names.
pub fn usage_text(fields: &Vec<(String, String)>) -> (r: String)
    ensures
        exists|s: Seq<(String, String)>| keys_sorted(s) && s.to_multiset() == fields@.to_multiset() && r@
            == usage_report(s),
{
    let sorted = sort_fields(fields);
    let mut lines: Vec<String> = Vec::new();
    let n = sorted.len();
    let mut i: usize = 0;
    while i < n
        invariant
            n == sorted@.len(),
            i <= n,
            views(lines@) == sorted@.take(i as int).map_values(|kv: (String, String)| usage_line(kv)),
        decreases n - i,
    {
        let mut l = sorted[i].0.clone();
        l.append(": ");
        l.append(sorted[i].1.as_str());
        push_line(&mut lines, l);
        assert(sorted@.take(i + 1) =~= sorted@.take(i as int).push(sorted@[i as int]));
        assert(sorted@.take(i + 1).map_values(|kv: (String, String)| usage_line(kv)) =~= sorted@.take(
            i as int,
        ).map_values(|kv: (String, String)| usage_line(kv)).push(usage_line(sorted@[i as int])));
        i = i + 1;
    }
    assert(sorted@.take(n as int) =~= sorted@);
    if n == 0 {
        String::from_str("Query succeeded.")
    } else {
        prefixed("Account usage:\n", join(&lines, "\n").as_str())
    }
}

// ------------------------------------------------------------------
// Media results
// ------------------------------------------------------------------

/// What became of generated media: saved to a file (with its size), kept in memory
/// (its size), or available at a URL.
#[derive(Debug, Clone)]
pub enum MediaReport {
    Saved { path: String, bytes: usize },
    Size(usize),
    Url(String),
}

/// The media is to be saved when an output directory or file is given.
pub fn wants_file(output_directory: &Option<String>, output_file: &Option<String>) -> (b: bool)
    ensures
        b == (output_directory is Some || output_file is Some),
{
    output_directory.is_some() || output_file.is_some()
}

/// The answer of text to speech.
pub open spec fn tts_report_text(r: MediaReport) -> Seq<char> {
    match r {
        MediaReport::Saved { path, .. } => "Saved to: "@ + path@,
        MediaReport::Size(n) => "Audio generated! "@ + decimal(n as nat) + " bytes"@,
        MediaReport::Url(u) => u@,
    }
}

/// The answer of text to speech.
pub fn tts_text(r: &MediaReport) -> (t: String)
    ensures
        t@ == tts_report_text(*r),
{
    match r {
        MediaReport::Saved { path, .. } => prefixed("Saved to: ", path.as_str()),
        MediaReport::Size(n) => {
            let mut t = prefixed("Audio generated! ", u64_to_string(*n as u64).as_str());
            t.append(" bytes");
            t
        },
        MediaReport::Url(u) => u.clone(),
    }
}

/// The answer of streamed or asynchronous speech, whose lead is `lead`
/// (`Stream TTS done!` or `Async TTS done!`): the saved path and size, or the size in
/// bytes and whole kilobytes, or the URL.
pub open spec fn done_report_text(lead: Seq<char>, r: MediaReport) -> Seq<char> {
    match r {
        MediaReport::Saved { path, bytes } => lead + " Saved to: "@ + path@ + " ("@ + decimal(bytes as nat)
            + " bytes)"@,
        MediaReport::Size(n) => lead + " Audio size: "@ + decimal(n as nat) + " bytes ("@ + decimal(
            (n / 1024) as nat,
        ) + " KB)"@,
        MediaReport::Url(u) => u@,
    }
}

/// The answer of streamed (`Stream TTS done!`) or asynchronous (`Async TTS done!`) speech.
pub fn done_text(lead: &str, r: &MediaReport) -> (t: String)
    ensures
        t@ == done_report_text(lead@, *r),
{
    match r {
        MediaReport::Saved { path, bytes } => {
            let mut t = prefixed(lead, " Saved to: ");
            t.append(path.as_str());
            t.append(" (");
            t.append(u64_to_string(*bytes as u64).as_str());
            t.append(" bytes)");
            t
        },
        MediaReport::Size(n) => {
            let mut t = prefixed(lead, " Audio size: ");
            t.append(u64_to_string(*n as u64).as_str());
            t.append(" bytes (");
            t.append(u64_to_string((*n / 1024) as u64).as_str());
            t.append(" KB)");
            t
        },
        MediaReport::Url(u) => u.clone(),
    }
}

/// The answer of a media tool whose three outcomes read `saved` + path, `size` + count
/// + ` bytes`, and `url` + URL.
pub open spec fn plain_report_text(saved: Seq<char>, size: Seq<char>, url: Seq<char>, r: MediaReport) -> Seq<char> {
    match r {
        MediaReport::Saved { path, .. } => saved + path@,
        MediaReport::Size(n) => size + decimal(n as nat) + " bytes"@,
        MediaReport::Url(u) => url + u@,
    }
}

/// The answer of a media tool with the given leads.
fn plain_text(saved: &str, size: &str, url: &str, r: &MediaReport) -> (t: String)
    ensures
        t@ == plain_report_text(saved@, size@, url@, *r),
{
    match r {
        MediaReport::Saved { path, .. } => prefixed(saved, path.as_str()),
        MediaReport::Size(n) => {
            let mut t = prefixed(size, u64_to_string(*n as u64).as_str());
            t.append(" bytes");
            t
        },
        MediaReport::Url(u) => prefixed(url, u.as_str()),
    }
}

/// The answer of music generation.
pub fn music_text(r: &MediaReport) -> (t: String)
    ensures
        t@ == plain_report_text("Music saved to: "@, "Music generated! "@, "Music generated! URL: "@, *r),
{
    plain_text("Music saved to: ", "Music generated! ", "Music generated! URL: ", r)
}

/// The answer of a cover song.
pub fn cover_text(r: &MediaReport) -> (t: String)
    ensures
        t@ == plain_report_text("Cover generated! Saved to: "@, "Cover generated! "@, "Cover generated! URL: "@, *r),
{
    plain_text("Cover generated! Saved to: ", "Cover generated! ", "Cover generated! URL: ", r)
}

/// The answer of voice design.
pub fn voice_design_text(r: &MediaReport) -> (t: String)
    ensures
        t@ == plain_report_text(
            "Voice design done!\nSaved to: "@,
            "Voice design done! Audio size: "@,
            "Voice design done!\nURL: "@,
            *r,
        ),
{
    plain_text("Voice design done!\nSaved to: ", "Voice design done! Audio size: ", "Voice design done!\nURL: ", r)
}

/// The answer of voice cloning: the voice id, then the demo audio's URL, saved path or
/// size, or `N/A` when there is none.
pub open spec fn voice_clone_report(voice_id: Seq<char>, demo: Option<MediaReport>) -> Seq<char> {
    "Voice cloned!\nvoice_id: "@ + voice_id + match demo {
        Some(MediaReport::Url(u)) => "\ndemo_audio: "@ + u@,
        Some(MediaReport::Saved { path, .. }) => "\nSaved to: "@ + path@,
        Some(MediaReport::Size(n)) => "\ndemo_audio: "@ + decimal(n as nat) + " bytes"@,
        None => "\ndemo_audio: N/A"@,
    }
}

/// The answer of voice cloning.
pub fn voice_clone_text(voice_id: &str, demo: &Option<MediaReport>) -> (t: String)
    ensures
        t@ == voice_clone_report(voice_id@, *demo),
{
    let mut t = prefixed("Voice cloned!\nvoice_id: ", voice_id);
    match demo {
        Some(MediaReport::Url(u)) => {
            t.append("\ndemo_audio: ");
            t.append(u.as_str());
        },
        Some(MediaReport::Saved { path, .. }) => {
            t.append("\nSaved to: ");
            t.append(path.as_str());
        },
        Some(MediaReport::Size(n)) => {
            t.append("\ndemo_audio: ");
            t.append(u64_to_string(*n as u64).as_str());
            t.append(" bytes");
        },
        None => t.append("\ndemo_audio: N/A"),
    }
    t
}

/// The answer of a deleted voice.
pub fn delete_voice_text(voice_id: &str) -> (t: String)
    ensures
        t@ == "Voice "@ + voice_id@ + " deleted."@,
{
    let mut t = prefixed("Voice ", voice_id);
    t.append(" deleted.");
    t
}

/// The answer of a speech task still running.
pub fn audio_task_status_text(status: &str, task_id: &str) -> (t: String)
    ensures
        t@ == "Task status: "@ + status@ + "\ntask_id: "@ + task_id@,
{
    let mut t = prefixed("Task status: ", status);
    t.append("\ntask_id: ");
    t.append(task_id);
    t
}

/// The answer of a failed speech task.
pub fn audio_task_failed_text(message: &str, task_id: &str) -> (t: String)
    ensures
        t@ == "Task failed: "@ + message@ + "\ntask_id: "@ + task_id@,
{
    let mut t = prefixed("Task failed: ", message);
    t.append("\ntask_id: ");
    t.append(task_id);
    t
}

/// The answer of a submitted video task.
pub fn video_submitted_text(task_id: &str) -> (t: String)
    ensures
        t@ == "Video task submitted!\ntask_id: "@ + task_id@ + "\nUse query_video to poll progress."@,
{
    let mut t = prefixed("Video task submitted!\ntask_id: ", task_id);
    t.append("\nUse query_video to poll progress.");
    t
}

/// The answer of a video saved to a file.
pub fn video_saved_text(path: &str) -> (t: String)
    ensures
        t@ == "Video generated! Saved to: "@ + path@,
{
    prefixed("Video generated! Saved to: ", path)
}

/// The answer of a generated video at a URL (`newline` puts the URL on its own line,
/// as a query does).
pub fn video_url_text(url: &str, newline: bool) -> (t: String)
    ensures
        newline ==> t@ == "Video generated!\nURL: "@ + url@,
        !newline ==> t@ == "Video generated! URL: "@ + url@,
{
    if newline {
        prefixed("Video generated!\nURL: ", url)
    } else {
        prefixed("Video generated! URL: ", url)
    }
}

/// The answer of a video task still running.
pub fn video_status_text(status: &str, task_id: &str) -> (t: String)
    ensures
        t@ == "Video task status: "@ + status@ + "\ntask_id: "@ + task_id@,
{
    let mut t = prefixed("Video task status: ", status);
    t.append("\ntask_id: ");
    t.append(task_id);
    t
}

/// The answer of a failed video task.
pub fn video_failed_text(message: &str) -> (t: String)
    ensures
        t@ == "Video generation failed: "@ + message@,
{
    prefixed("Video generation failed: ", message)
}

/// The answer of a submitted video template task.
pub fn video_agent_submitted_text(task_id: &str) -> (t: String)
    ensures
        t@ == "Video Agent task submitted!\ntask_id: "@ + task_id@ + "\nUse query_video_agent to poll progress."@,
{
    let mut t = prefixed("Video Agent task submitted!\ntask_id: ", task_id);
    t.append("\nUse query_video_agent to poll progress.");
    t
}

/// The answer of a finished video template task: its URL, or `N/A` when it is empty.
pub fn video_agent_done_text(task_id: &str, url: &str) -> (t: String)
    ensures
        t@ == "Video Agent task succeeded!\ntask_id: "@ + task_id@ + "\nvideo_url: "@ + (if url@.len() == 0 {
            "N/A"@
        } else {
            url@
        }),
{
    let mut t = prefixed("Video Agent task succeeded!\ntask_id: ", task_id);
    t.append("\nvideo_url: ");
    if url.unicode_len() == 0 {
        t.append("N/A");
    } else {
        t.append(url);
    }
    t
}

/// The answer of a video template task saved to a file.
pub fn video_agent_saved_text(task_id: &str, path: &str) -> (t: String)
    ensures
        t@ == "Video Agent task succeeded!\ntask_id: "@ + task_id@ + "\nSaved to: "@ + path@,
{
    let mut t = prefixed("Video Agent task succeeded!\ntask_id: ", task_id);
    t.append("\nSaved to: ");
    t.append(path);
    t
}

/// The answer of a video template task still running.
pub fn video_agent_status_text(status: &str, task_id: &str) -> (t: String)
    ensures
        t@ == "Video Agent task status: "@ + status@ + "\ntask_id: "@ + task_id@,
{
    let mut t = prefixed("Video Agent task status: ", status);
    t.append("\ntask_id: ");
    t.append(task_id);
    t
}

/// The answer of a failed video template task.
pub fn video_agent_failed_text(message: &str) -> (t: String)
    ensures
        t@ == "Video Agent task failed: "@ + message@,
{
    prefixed("Video Agent task failed: ", message)
}

/// One line of the image list: its number (from 1) and URL, or its size.
pub open spec fn image_line(i: int, o: MediaOutput) -> Seq<char> {
    decimal((i + 1) as nat) + ". "@ + match o {
        MediaOutput::Url(u) => u@,
        MediaOutput::Bytes { data, .. } => "["@ + decimal(data@.len()) + " bytes]"@,
    }
}

/// The lines of images `0..k`.
pub open spec fn image_lines(outputs: Seq<MediaOutput>, k: int) -> Seq<Seq<char>>
    decreases k,
{
    if k <= 0 {
        Seq::empty()
    } else {
        image_lines(outputs, k - 1).push(image_line(k - 1, outputs[k - 1]))
    }
}

/// The answer of image generation: the count, then one numbered line per image.
pub fn image_list_text(outputs: &Vec<MediaOutput>) -> (t: String)
    ensures
        t@ == "Image generated! "@ + decimal(outputs@.len()) + " image(s):\n"@ + joined(
            image_lines(outputs@, outputs@.len() as int),
            "\n"@,
        ),
{
    let mut lines: Vec<String> = Vec::new();
    let n = outputs.len();
    let mut i: usize = 0;
    while i < n
        invariant
            n == outputs@.len(),
            i <= n,
            views(lines@) == image_lines(outputs@, i as int),
        decreases n - i,
    {
        let mut l = u64_to_string((i + 1) as u64);
        l.append(". ");
        match &outputs[i] {
            MediaOutput::Url(u) => l.append(u.as_str()),
            MediaOutput::Bytes { data, .. } => {
                l.append("[");
                l.append(u64_to_string(data.len() as u64).as_str());
                l.append(" bytes]");
            },
        }
        assert(l@ == image_line(i as int, outputs@[i as int]));
        assert(image_lines(outputs@, i + 1) == image_lines(outputs@, i as int).push(
            image_line(i as int, outputs@[i as int]),
        ));
        push_line(&mut lines, l);
        i = i + 1;
    }
    let mut t = prefixed("Image generated! ", u64_to_string(n as u64).as_str());
    t.append(" image(s):\n");
    t.append(join(&lines, "\n").as_str());
    t
}

/// The answer when images were saved: the paths, one per line.
pub fn image_saved_text(paths: &Vec<String>) -> (t: String)
    ensures
        t@ == "Image saved to:\n"@ + joined(views(paths@), "\n"@),
{
    prefixed("Image saved to:\n", join(paths, "\n").as_str())
}

/// The message that goes with a submitted asynchronous speech task.
pub fn async_submitted_message(task_id: &str) -> (t: String)
    ensures
        t@ == "Async TTS task submitted. Use query_audio_task --task_id "@ + task_id@ + " to poll and download."@,
{
    let mut t = prefixed("Async TTS task submitted. Use query_audio_task --task_id ", task_id);
    t.append(" to poll and download.");
    t
}

// ------------------------------------------------------------------
// Command-line output
// ------------------------------------------------------------------

/// The lines the command line prints for the voice list: system voices, then cloned
/// voices, then the two counts.
pub open spec fn cli_voice_lines(r: VoiceListResult) -> Seq<Seq<char>> {
    seq!["=== 系统音色 ==="@] + r.system@.map_values(
        |v: crate::providers::VoiceInfoOutput| voice_line(v.voice_id@, v.voice_name@),
    ) + seq!["\n=== 克隆音色 ==="@] + r.cloned@.map_values(
        |v: crate::providers::VoiceInfoOutput| voice_line(v.voice_id@, v.voice_name@),
    ) + seq!["\n共 "@ + decimal(r.system@.len()) + " 个系统音色 + "@ + decimal(r.cloned@.len()) + " 个克隆音色"@]
}

/// What the command line prints for the voice list (without the final newline).
pub fn cli_voice_list_text(resp: &VoiceListResult) -> (r: String)
    ensures
        r@ == joined(cli_voice_lines(*resp), "\n"@),
{
    let mut lines: Vec<String> = Vec::new();
    push_line(&mut lines, String::from_str("=== 系统音色 ==="));
    let ghost head = views(lines@);
    let n = resp.system.len();
    let mut i: usize = 0;
    while i < n
        invariant
            n == resp.system@.len(),
            i <= n,
            views(lines@) == head + resp.system@.take(i as int).map_values(
                |v: crate::providers::VoiceInfoOutput| voice_line(v.voice_id@, v.voice_name@),
            ),
        decreases n - i,
    {
        let v = &resp.system[i];
        let mut l = prefixed("  ", v.voice_id.as_str());
        l.append(" — ");
        l.append(v.voice_name.as_str());
        push_line(&mut lines, l);
        assert(resp.system@.take(i + 1) =~= resp.system@.take(i as int).push(resp.system@[i as int]));
        i = i + 1;
    }
    assert(resp.system@.take(n as int) =~= resp.system@);
    push_line(&mut lines, String::from_str("\n=== 克隆音色 ==="));
    let ghost head = views(lines@);
    let n = resp.cloned.len();
    let mut i: usize = 0;
    while i < n
        invariant
            n == resp.cloned@.len(),
            i <= n,
            views(lines@) == head + resp.cloned@.take(i as int).map_values(
                |v: crate::providers::VoiceInfoOutput| voice_line(v.voice_id@, v.voice_name@),
            ),
        decreases n - i,
    {
        let v = &resp.cloned[i];
        let mut l = prefixed("  ", v.voice_id.as_str());
        l.append(" — ");
        l.append(v.voice_name.as_str());
        push_line(&mut lines, l);
        assert(resp.cloned@.take(i + 1) =~= resp.cloned@.take(i as int).push(resp.cloned@[i as int]));
        i = i + 1;
    }
    assert(resp.cloned@.take(n as int) =~= resp.cloned@);
    let mut l = prefixed("\n共 ", u64_to_string(resp.system.len() as u64).as_str());
    l.append(" 个系统音色 + ");
    l.append(u64_to_string(resp.cloned.len() as u64).as_str());
    l.append(" 个克隆音色");
    push_line(&mut lines, l);
    assert(views(lines@) =~= cli_voice_lines(*resp));
    join(&lines, "\n")
}

/// The lines the command line prints for one search result.
pub open spec fn cli_search_result_lines(i: int, r: crate::providers::SearchResultItem) -> Seq<Seq<char>> {
    seq![decimal((i + 1) as nat) + ". "@ + r.title@, "   URL: "@ + r.url@, "   "@ + r.snippet@ + "\n"@]
}

/// The lines of results `0..k`.
pub open spec fn cli_search_results_lines(results: Seq<crate::providers::SearchResultItem>, k: int) -> Seq<Seq<char>>
    decreases k,
{
    if k <= 0 {
        Seq::empty()
    } else {
        cli_search_results_lines(results, k - 1) + cli_search_result_lines(k - 1, results[k - 1])
    }
}

/// What the command line prints for a web search (without the final newline): the
/// count, then each result's number and title, URL and snippet.
pub fn cli_search_text(output: &SearchOutput) -> (r: String)
    ensures
        r@ == joined(
            seq!["搜索结果 (共 "@ + decimal(output.results@.len()) + " 条):\n"@] + cli_search_results_lines(
                output.results@,
                output.results@.len() as int,
            ),
            "\n"@,
        ),
{
    let mut lines: Vec<String> = Vec::new();
    let mut h = prefixed("搜索结果 (共 ", u64_to_string(output.results.len() as u64).as_str());
    h.append(" 条):\n");
    push_line(&mut lines, h);
    let ghost head = views(lines@);
    let n = output.results.len();
    let mut i: usize = 0;
    while i < n
        invariant
            n == output.results@.len(),
            i <= n,
            views(lines@) == head + cli_search_results_lines(output.results@, i as int),
        decreases n - i,
    {
        let ghost before = views(lines@);
        let r = &output.results[i];
        let mut l = u64_to_string((i + 1) as u64);
        l.append(". ");
        l.append(r.title.as_str());
        push_line(&mut lines, l);
        push_line(&mut lines, prefixed("   URL: ", r.url.as_str()));
        let mut sn = prefixed("   ", r.snippet.as_str());
        sn.append("\n");
        push_line(&mut lines, sn);
        assert(views(lines@) =~= before + cli_search_result_lines(i as int, output.results@[i as int]));
        i = i + 1;
    }
    assert(views(lines@) =~= seq!["搜索结果 (共 "@ + decimal(output.results@.len()) + " 条):\n"@] + cli_search_results_lines(
        output.results@,
        output.results@.len() as int,
    ));
    join(&lines, "\n")
}

} // verus!
