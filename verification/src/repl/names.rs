//! The names the shell knows, offered for tab completion: built-in
//! functions, the names that definitions and imports bring in, and the
//! variables bound at the prompt.

use crate::text::{
    lemma_text_less_total, lemma_text_less_transitive, push_char, same_text, starts_with, text_less,
    text_less_than,
};
use vstd::string::StringSliceAdditionalSpecFns;
use vstd::prelude::*;

verus! {

/// A top-level definition, as far as completion cares.
#[derive(Debug, Clone)]
pub enum TopLevelEntry {
    /// A function definition.
    Function { name: String },
    /// An external (WebAssembly) function declaration.
    ExternalFn { name: String },
    /// A port with the names of its methods.
    Port { name: String, methods: Vec<String> },
    /// An import: of a foreign module (`is_external`), of the listed items,
    /// or of a whole module under an alias.
    Import { is_external: bool, items: Vec<String>, alias: Option<String>, path: String },
    /// Any other definition; it brings in no name.
    Other,
}

/// The stem of the last component of `path`, as `std::path::Path::file_stem`
/// finds it, taken as text.
pub uninterp spec fn path_file_stem(path: Seq<char>) -> Option<Seq<char>>;

/// The file stem of `path` (`Path::new(path).file_stem()` as text).
#[verifier::external_body]
fn file_stem(path: &str) -> (stem: Option<String>)
    ensures
        match stem {
            Some(s) => path_file_stem(path@) == Some(s@),
            None => path_file_stem(path@) is None,
        },
{
    std::path::Path::new(path).file_stem().and_then(|s| s.to_str()).map(|s| s.to_string())
}

/// The name a whole-module import is known by when it has no alias: the
/// file stem of its path, or the path itself when it has none.
pub open spec fn default_alias(path: Seq<char>) -> Seq<char> {
    match path_file_stem(path) {
        Some(stem) => stem,
        None => path,
    }
}

/// The alias for `path` given its file stem `stem`: the stem, or the path.
pub fn alias_from_stem(path: &str, stem: Option<String>) -> (alias: String)
    ensures
        alias@ == match stem {
            Some(s) => s@,
            None => path@,
        },
{
    match stem {
        Some(s) => s,
        None => String::from_str(path),
    }
}

/// The name a whole-module import of `path` is known by when it has no alias.
pub fn default_alias_from_path(path: &str) -> (alias: String)
    ensures
        alias@ == default_alias(path@),
{
    let stem = file_stem(path);
    alias_from_stem(path, stem)
}

/// The text of a sequence of strings.
pub open spec fn texts(v: Seq<String>) -> Seq<Seq<char>> {
    v.map_values(|s: String| s@)
}

/// The names an entry brings in, in order.
pub open spec fn entry_names(e: TopLevelEntry) -> Seq<Seq<char>> {
    match e {
        TopLevelEntry::Function { name } => seq![name@],
        TopLevelEntry::ExternalFn { name } => seq![name@],
        TopLevelEntry::Port { name, methods } => methods@.map_values(
            |m: String| name@ + seq!['.'] + m@,
        ),
        TopLevelEntry::Import { is_external, items, alias, path } => if is_external {
            Seq::empty()
        } else if items@.len() > 0 {
            texts(items@)
        } else {
            seq![
                match alias {
                    Some(a) => a@,
                    None => default_alias(path@),
                },
            ]
        },
        TopLevelEntry::Other => Seq::empty(),
    }
}

/// `names` with `n` added at the end unless it is already there.
pub open spec fn with_name(names: Seq<Seq<char>>, n: Seq<char>) -> Seq<Seq<char>> {
    if names.contains(n) {
        names
    } else {
        names.push(n)
    }
}

/// `names` with each of `added` added in turn.
pub open spec fn with_names(names: Seq<Seq<char>>, added: Seq<Seq<char>>) -> Seq<Seq<char>>
    decreases added.len(),
{
    if added.len() == 0 {
        names
    } else {
        with_name(with_names(names, added.drop_last()), added.last())
    }
}

/// `names` with the names of each of `defs` added in turn.
pub open spec fn with_entries(names: Seq<Seq<char>>, defs: Seq<TopLevelEntry>) -> Seq<Seq<char>>
    decreases defs.len(),
{
    if defs.len() == 0 {
        names
    } else {
        with_names(with_entries(names, defs.drop_last()), entry_names(defs.last()))
    }
}

/// The built-in functions the shell knows at start.
pub open spec fn builtin_names() -> Seq<Seq<char>> {
    seq![
        "print"@,
        "i64_to_string"@,
        "float_to_string"@,
        "bool_to_string"@,
        "drop_i64"@,
        "drop_array"@,
    ]
}

proof fn lemma_with_single_name(names: Seq<Seq<char>>)
    ensures
        forall|n: Seq<char>| #[trigger] with_names(names, seq![n]) == with_name(names, n),
{
    assert forall|n: Seq<char>| #[trigger] with_names(names, seq![n]) == with_name(names, n) by {
        let single = seq![n];
        assert(single.drop_last() =~= Seq::<Seq<char>>::empty());
        assert(single.last() == n);
        assert(single.len() == 1);
        assert(with_names(names, single.drop_last()) == names);
        assert(with_names(names, single) == with_name(with_names(names, single.drop_last()), single.last()));
    }
}

/// Whether `s` is in strictly increasing text order.
pub open spec fn strictly_sorted(s: Seq<Seq<char>>) -> bool {
    forall|i: int, j: int| 0 <= i < j < s.len() ==> text_less(#[trigger] s[i], #[trigger] s[j])
}

proof fn lemma_insert_to_set(s: Seq<Seq<char>>, k: int, x: Seq<char>)
    requires
        0 <= k <= s.len(),
    ensures
        s.insert(k, x).to_set() == s.to_set().insert(x),
{
    let t = s.insert(k, x);
    assert forall|n: Seq<char>| t.contains(n) <==> s.contains(n) || n == x by {
        if t.contains(n) {
            let m = choose|m: int| 0 <= m < t.len() && t[m] == n;
            if m < k {
                assert(s[m] == n);
            } else if m > k {
                assert(s[m - 1] == n);
            }
        }
        if s.contains(n) {
            let q = choose|q: int| 0 <= q < s.len() && s[q] == n;
            if q < k {
                assert(t[q] == n);
            } else {
                assert(t[q + 1] == n);
            }
        }
        if n == x {
            assert(t[k] == x);
        }
    }
    assert(t.to_set() =~= s.to_set().insert(x));
}

proof fn lemma_insert_keeps_sorted(s: Seq<Seq<char>>, k: int, x: Seq<char>)
    requires
        strictly_sorted(s),
        0 <= k <= s.len(),
        forall|j: int| 0 <= j < k ==> text_less(#[trigger] s[j], x),
        forall|j: int| k <= j < s.len() ==> text_less(x, #[trigger] s[j]),
    ensures
        strictly_sorted(s.insert(k, x)),
{
    let t = s.insert(k, x);
    assert forall|i: int, j: int| 0 <= i < j < t.len() implies text_less(
        #[trigger] t[i],
        #[trigger] t[j],
    ) by {
        if j < k {
            assert(t[i] == s[i] && t[j] == s[j]);
        } else if j == k {
            assert(t[i] == s[i]);
        } else if i < k {
            assert(t[i] == s[i] && t[j] == s[j - 1]);
            lemma_text_less_transitive(s[i], x, s[j - 1]);
        } else if i == k {
            assert(t[j] == s[j - 1]);
        } else {
            assert(t[i] == s[i - 1] && t[j] == s[j - 1]);
        }
    }
}

/// Whether `name` starts with `word`.
pub open spec fn starts_with_word(word: Seq<char>) -> spec_fn(Seq<char>) -> bool {
    |name: Seq<char>| word.is_prefix_of(name)
}

/// The characters that end a word being completed: whitespace (space, tab,
/// line feed, carriage return) and `(){}[],.`.
pub open spec fn is_word_break(c: char) -> bool {
    ||| c == ' '
    ||| c == '\t'
    ||| c == '\n'
    ||| c == '\r'
    ||| c == '('
    ||| c == ')'
    ||| c == '{'
    ||| c == '}'
    ||| c == '['
    ||| c == ']'
    ||| c == ','
    ||| c == '.'
}

/// Whether `c` ends a word being completed.
pub fn is_completion_break(c: char) -> (b: bool)
    ensures
        b == is_word_break(c),
{
    c == ' ' || c == '\t' || c == '\n' || c == '\r' || c == '(' || c == ')' || c == '{' || c
        == '}' || c == '[' || c == ']' || c == ',' || c == '.'
}

/// `word` is the part of `line` that ends at character `k` and starts
/// after the last word break before `k`, and `start` is the byte offset
/// where it starts.
pub open spec fn word_ending_at(line: Seq<char>, k: int, start: int, word: Seq<char>) -> bool {
    let j = k - word.len();
    &&& 0 <= j
    &&& word == line.subrange(j, k)
    &&& start == vstd::utf8::encode_utf8(line.take(j)).len()
    &&& forall|i: int| 0 <= i < word.len() ==> !is_word_break(#[trigger] word[i])
    &&& (j == 0 || is_word_break(line[j - 1]))
}

/// `word`, starting at byte `start`, is the word before the cursor at byte
/// offset `pos` of `line`.
pub open spec fn is_completion_word(line: Seq<char>, pos: int, start: int, word: Seq<char>) -> bool {
    exists|k: int|
        0 <= k <= line.len() && vstd::utf8::encode_utf8(#[trigger] line.take(k)).len() == pos
            && word_ending_at(line, k, start, word)
}

proof fn lemma_encoded_len_push(a: Seq<char>, c: char)
    ensures
        vstd::utf8::encode_utf8(a.push(c)).len() == vstd::utf8::encode_utf8(a).len()
            + vstd::utf8::encode_scalar(c as u32).len(),
    decreases a.len(),
{
    if a.len() > 0 {
        assert(a.push(c).drop_first() =~= a.drop_first().push(c));
        assert(a.push(c)[0] == a[0]);
        lemma_encoded_len_push(a.drop_first(), c);
    } else {
        assert(a.push(c).drop_first() =~= Seq::<char>::empty());
        assert(a.push(c)[0] == c);
        assert(vstd::utf8::encode_utf8(Seq::<char>::empty()).len() == 0);
        assert(vstd::utf8::encode_utf8(a).len() == 0);
    }
}

proof fn lemma_encoded_prefix_len_increases(line: Seq<char>, k1: int, k2: int)
    requires
        0 <= k1 < k2 <= line.len(),
    ensures
        vstd::utf8::encode_utf8(line.take(k1)).len() < vstd::utf8::encode_utf8(line.take(k2)).len(),
    decreases k2 - k1,
{
    assert(line.take(k2) =~= line.take(k2 - 1).push(line[k2 - 1]));
    lemma_encoded_len_push(line.take(k2 - 1), line[k2 - 1]);
    assert(vstd::utf8::encode_scalar(line[k2 - 1] as u32).len() >= 1);
    if k1 < k2 - 1 {
        lemma_encoded_prefix_len_increases(line, k1, k2 - 1);
    }
}

/// The word before the cursor, and where it starts, are determined by the
/// line and the cursor.
pub proof fn lemma_completion_word_unique(
    line: Seq<char>,
    pos: int,
    start1: int,
    word1: Seq<char>,
    start2: int,
    word2: Seq<char>,
)
    requires
        is_completion_word(line, pos, start1, word1),
        is_completion_word(line, pos, start2, word2),
    ensures
        start1 == start2,
        word1 == word2,
{
    let k1 = choose|k: int|
        0 <= k <= line.len() && vstd::utf8::encode_utf8(#[trigger] line.take(k)).len() == pos
            && word_ending_at(line, k, start1, word1);
    let k2 = choose|k: int|
        0 <= k <= line.len() && vstd::utf8::encode_utf8(#[trigger] line.take(k)).len() == pos
            && word_ending_at(line, k, start2, word2);
    if k1 < k2 {
        lemma_encoded_prefix_len_increases(line, k1, k2);
    } else if k2 < k1 {
        lemma_encoded_prefix_len_increases(line, k2, k1);
    }
    let k = k1;
    let j1 = k - word1.len();
    let j2 = k - word2.len();
    if j1 < j2 {
        assert(word1[j2 - 1 - j1] == line[j2 - 1]);
    } else if j2 < j1 {
        assert(word2[j1 - 1 - j2] == line[j1 - 1]);
    }
}

/// Whether `c` is one of the twelve characters that end a completion word:
/// space, tab, line feed, carriage return, `(`, `)`, `{`, `}`, `[`, `]`,
/// `,` and `.`.
pub open spec fn is_one_of_the_break_characters(c: char) -> bool {
    " \t\n\r(){}[],."@.contains(c)
}

/// Each of the twelve break characters ends a word, and no other character
/// does.
pub proof fn lemma_word_breaks_are_the_twelve_characters(c: char)
    ensures
        is_word_break(c) <==> is_one_of_the_break_characters(c),
{
    reveal_strlit(" \t\n\r(){}[],.");
    let t = " \t\n\r(){}[],."@;
    assert(t.len() == 12);
    if is_word_break(c) {
        if c == ' ' { assert(t[0] == c); }
        else if c == '\t' { assert(t[1] == c); }
        else if c == '\n' { assert(t[2] == c); }
        else if c == '\r' { assert(t[3] == c); }
        else if c == '(' { assert(t[4] == c); }
        else if c == ')' { assert(t[5] == c); }
        else if c == '{' { assert(t[6] == c); }
        else if c == '}' { assert(t[7] == c); }
        else if c == '[' { assert(t[8] == c); }
        else if c == ']' { assert(t[9] == c); }
        else if c == ',' { assert(t[10] == c); }
        else { assert(t[11] == c); }
    }
}

/// The word being completed holds none of the twelve break characters,
/// and it starts at the beginning of the line or right after one of them.
pub proof fn lemma_completion_word_between_breaks(
    line: Seq<char>,
    pos: int,
    start: int,
    word: Seq<char>,
)
    requires
        is_completion_word(line, pos, start, word),
    ensures
        forall|i: int| 0 <= i < word.len() ==> !is_one_of_the_break_characters(#[trigger] word[i]),
        exists|k: int|
            0 <= k <= line.len() && #[trigger] line.subrange(k - word.len(), k) == word && (k
                == word.len() || is_one_of_the_break_characters(line[k - word.len() - 1])),
{
    let k = choose|k: int|
        0 <= k <= line.len() && vstd::utf8::encode_utf8(#[trigger] line.take(k)).len() == pos
            && word_ending_at(line, k, start, word);
    assert forall|i: int| 0 <= i < word.len() implies !is_one_of_the_break_characters(
        #[trigger] word[i],
    ) by {
        lemma_word_breaks_are_the_twelve_characters(word[i]);
    }
    let j = k - word.len();
    if j > 0 {
        lemma_word_breaks_are_the_twelve_characters(line[j - 1]);
    }
    assert(line.subrange(k - word.len(), k) == word);
}

/// `rustyline::completion::extract_word` with no escape character and
/// [`is_completion_break`] as the break test. Its source takes the line up
/// to the cursor and returns the part after the last break character, with
/// the byte offset where that part starts (the whole line up to the cursor,
/// and 0, when there is no break character).
#[verifier::external_body]
fn extract_word(line: &str, pos: usize) -> (r: (usize, String))
    requires
        vstd::utf8::is_char_boundary(line.spec_bytes(), pos as int),
    ensures
        is_completion_word(line@, pos as int, r.0 as int, r.1@),
{
    let (start, word) = rustyline::completion::extract_word(line, pos, None, is_completion_break);
    (start, word.to_string())
}

/// Registering a name twice is the same as registering it once.
pub proof fn lemma_register_idempotent(names: Seq<Seq<char>>, n: Seq<char>)
    ensures
        with_name(with_name(names, n), n) == with_name(names, n),
{
    if !names.contains(n) {
        assert(names.push(n)[names.len() as int] == n);
    }
}

/// Registering keeps every name at most once.
pub proof fn lemma_register_keeps_names_distinct(names: Seq<Seq<char>>, n: Seq<char>)
    requires
        names.no_duplicates(),
    ensures
        with_name(names, n).no_duplicates(),
        with_name(names, n).contains(n),
{
    if !names.contains(n) {
        assert(names.push(n)[names.len() as int] == n);
    }
}

/// A registered name is offered whenever the word being completed is a
/// prefix of it, and every name offered is registered and starts with the
/// word.
pub proof fn lemma_offered_iff_registered_with_prefix(
    names: Seq<Seq<char>>,
    word: Seq<char>,
    n: Seq<char>,
)
    ensures
        names.filter(starts_with_word(word)).contains(n) <==> (names.contains(n)
            && word.is_prefix_of(n)),
{
    broadcast use vstd::seq_lib::group_filter_ensures;

    let f = names.filter(starts_with_word(word));
    if names.contains(n) && word.is_prefix_of(n) {
        let i = choose|i: int| 0 <= i < names.len() && names[i] == n;
        names.lemma_filter_contains(starts_with_word(word), i);
    }
    if f.contains(n) {
        let i = choose|i: int| 0 <= i < f.len() && f[i] == n;
        names.lemma_filter_pred(starts_with_word(word), i);
        lemma_filter_keeps_only_members(names, starts_with_word(word), n);
    }
}

proof fn lemma_filter_keeps_only_members(
    s: Seq<Seq<char>>,
    pred: spec_fn(Seq<char>) -> bool,
    n: Seq<char>,
)
    requires
        s.filter(pred).contains(n),
    ensures
        s.contains(n),
    decreases s.len(),
{
    reveal(Seq::filter);
    if s.len() > 0 {
        let rest = s.drop_last().filter(pred);
        if rest.contains(n) {
            lemma_filter_keeps_only_members(s.drop_last(), pred, n);
            let i = choose|i: int| 0 <= i < s.drop_last().len() && s.drop_last()[i] == n;
            assert(s[i] == n);
        } else {
            assert(s.last() == n) by {
                let f = s.filter(pred);
                let i = choose|i: int| 0 <= i < f.len() && f[i] == n;
                if pred(s.last()) {
                    if i < rest.len() {
                        assert(rest[i] == n);
                    }
                } else {
                    assert(rest[i] == n);
                }
            }
            assert(s[s.len() - 1] == n);
        }
    }
}

/// An import that is not external and lists items registers exactly those
/// items, in order, whatever its alias and path; an external import
/// registers nothing; an import of a whole module registers its alias, or
/// its path's default alias when it has none.
pub proof fn lemma_import_registers_items_or_alias(
    names: Seq<Seq<char>>,
    is_external: bool,
    items: Vec<String>,
    alias: Option<String>,
    path: String,
)
    ensures
        ({
            let registered = with_entries(
                names,
                seq![TopLevelEntry::Import { is_external, items, alias, path }],
            );
            &&& is_external ==> registered == names
            &&& !is_external && items@.len() > 0 ==> registered == with_names(
                names,
                items@.map_values(|s: String| s@),
            )
            &&& !is_external && items@.len() == 0 ==> registered == with_name(
                names,
                match alias {
                    Some(a) => a@,
                    None => default_alias(path@),
                },
            )
        }),
{
    let e = TopLevelEntry::Import { is_external, items, alias, path };
    let defs = seq![e];
    assert(defs.drop_last() =~= Seq::<TopLevelEntry>::empty());
    assert(defs.last() == e);
    assert(with_entries(names, defs.drop_last()) == names);
    assert(with_entries(names, defs) == with_names(names, entry_names(e)));
    assert(texts(items@) =~= items@.map_values(|s: String| s@));
    if is_external {
        assert(with_names(names, Seq::<Seq<char>>::empty()) == names);
    }
    if !is_external && items@.len() == 0 {
        lemma_with_single_name(names);
        let a = match alias {
            Some(a) => a@,
            None => default_alias(path@),
        };
        assert(seq![a].drop_last() =~= Seq::<Seq<char>>::empty());
    }
}

/// The names an import of listed items brings in do not depend on its
/// alias.
pub proof fn lemma_import_items_ignore_alias(
    names: Seq<Seq<char>>,
    items: Vec<String>,
    alias1: Option<String>,
    alias2: Option<String>,
    path: String,
)
    requires
        items@.len() > 0,
    ensures
        with_entries(
            names,
            seq![TopLevelEntry::Import { is_external: false, items, alias: alias1, path }],
        ) == with_entries(
            names,
            seq![TopLevelEntry::Import { is_external: false, items, alias: alias2, path }],
        ),
{
    lemma_import_registers_items_or_alias(names, false, items, alias1, path);
    lemma_import_registers_items_or_alias(names, false, items, alias2, path);
}

/// Registering names keeps every name registered before, and afterwards
/// each of the added names is registered.
pub proof fn lemma_with_names_contains(names: Seq<Seq<char>>, added: Seq<Seq<char>>, n: Seq<char>)
    requires
        names.contains(n) || added.contains(n),
    ensures
        with_names(names, added).contains(n),
    decreases added.len(),
{
    if added.len() > 0 {
        let init = added.drop_last();
        let before = with_names(names, init);
        if names.contains(n) || init.contains(n) {
            lemma_with_names_contains(names, init, n);
        } else {
            let i = choose|i: int| 0 <= i < added.len() && added[i] == n;
            if i < init.len() {
                assert(init[i] == n);
            }
            assert(added.last() == n);
        }
        if !before.contains(added.last()) {
            if before.contains(n) {
                let j = choose|j: int| 0 <= j < before.len() && before[j] == n;
                assert(before.push(added.last())[j] == n);
            } else {
                assert(before.push(added.last())[before.len() as int] == n);
            }
        }
    }
}

/// After definitions are registered, every name registered before is still
/// offered, and so is every name that one of the definitions brings in.
pub proof fn lemma_with_entries_contains(
    names: Seq<Seq<char>>,
    defs: Seq<TopLevelEntry>,
    i: int,
    n: Seq<char>,
)
    requires
        names.contains(n) || (0 <= i < defs.len() && entry_names(defs[i]).contains(n)),
    ensures
        with_entries(names, defs).contains(n),
    decreases defs.len(),
{
    if defs.len() > 0 {
        let init = defs.drop_last();
        if names.contains(n) || (0 <= i < init.len() && entry_names(init[i]).contains(n)) {
            if 0 <= i < init.len() {
                assert(init[i] == defs[i]);
            }
            lemma_with_entries_contains(names, init, i, n);
            lemma_with_names_contains(with_entries(names, init), entry_names(defs.last()), n);
        } else {
            assert(i == defs.len() - 1);
            lemma_with_names_contains(with_entries(names, init), entry_names(defs.last()), n);
        }
    }
}

/// Keeping some of the items of a sequence without duplicates gives a
/// sequence without duplicates.
proof fn lemma_filter_keeps_distinct(s: Seq<Seq<char>>, pred: spec_fn(Seq<char>) -> bool)
    requires
        s.no_duplicates(),
    ensures
        s.filter(pred).no_duplicates(),
    decreases s.len(),
{
    reveal(Seq::filter);
    if s.len() > 0 {
        let init = s.drop_last();
        assert forall|i: int, j: int|
            0 <= i < init.len() && 0 <= j < init.len() && i != j implies init[i] != init[j] by {
            assert(init[i] == s[i] && init[j] == s[j]);
        }
        lemma_filter_keeps_distinct(init, pred);
        let f = init.filter(pred);
        if pred(s.last()) {
            assert(!f.contains(s.last())) by {
                if f.contains(s.last()) {
                    lemma_filter_keeps_only_members(init, pred, s.last());
                    let i = choose|i: int| 0 <= i < init.len() && init[i] == s.last();
                    assert(s[i] == s[s.len() - 1]);
                }
            }
            assert forall|i: int, j: int|
                0 <= i < f.len() + 1 && 0 <= j < f.len() + 1 && i != j implies #[trigger] f.push(
                s.last(),
            )[i] != #[trigger] f.push(s.last())[j] by {
                if i == f.len() {
                    assert(f.contains(f[j]));
                } else if j == f.len() {
                    assert(f.contains(f[i]));
                }
            }
        }
    }
}

/// The names the shell offers for completion, each once, in the order they
/// were first registered.
pub struct NameRegistry {
    names: Vec<String>,
}

impl View for NameRegistry {
    type V = Seq<Seq<char>>;

    closed spec fn view(&self) -> Seq<Seq<char>> {
        texts(self.names@)
    }
}

impl NameRegistry {
    #[verifier::type_invariant]
    spec fn names_are_distinct(self) -> bool {
        texts(self.names@).no_duplicates()
    }

    /// A registry with no names.
    pub fn new() -> (r: Self)
        ensures
            r@ == Seq::<Seq<char>>::empty(),
    {
        let r = NameRegistry { names: Vec::new() };
        assert(r@ =~= Seq::<Seq<char>>::empty());
        r
    }

    /// Whether `name` is registered.
    pub fn contains(&self, name: &str) -> (b: bool)
        ensures
            b == self@.contains(name@),
    {
        let mut i: usize = 0;
        while i < self.names.len()
            invariant
                i <= self.names@.len(),
                forall|j: int| 0 <= j < i ==> texts(self.names@)[j] != name@,
            decreases self.names.len() - i,
        {
            if same_text(self.names[i].as_str(), name) {
                assert(texts(self.names@)[i as int] == name@);
                return true;
            }
            i = i + 1;
        }
        assert(!texts(self.names@).contains(name@));
        false
    }

    /// Registers `name`; returns whether it was new.
    pub fn insert(&mut self, name: String) -> (added: bool)
        ensures
            added == !old(self)@.contains(name@),
            final(self)@ == with_name(old(self)@, name@),
    {
        proof {
            use_type_invariant(&*self);
        }
        if self.contains(name.as_str()) {
            return false;
        }
        let ghost before = self.names@;
        let mut names = Vec::new();
        std::mem::swap(&mut names, &mut self.names);
        names.push(name);
        assert(texts(names@) =~= texts(before).push(name@));
        self.names = names;
        true
    }

    /// A registry holding the built-in functions the shell knows at start:
    /// `print`, `i64_to_string`, `float_to_string`, `bool_to_string`,
    /// `drop_i64` and `drop_array`.
    pub fn with_builtins() -> (r: Self)
        ensures
            r@ == builtin_names(),
    {
        let mut r = NameRegistry::new();
        r.insert(String::from_str("print"));
        r.insert(String::from_str("i64_to_string"));
        r.insert(String::from_str("float_to_string"));
        r.insert(String::from_str("bool_to_string"));
        r.insert(String::from_str("drop_i64"));
        r.insert(String::from_str("drop_array"));
        proof {
            reveal_strlit("print");
            reveal_strlit("i64_to_string");
            reveal_strlit("float_to_string");
            reveal_strlit("bool_to_string");
            reveal_strlit("drop_i64");
            reveal_strlit("drop_array");
            assert("print"@.len() == 5);
            assert("i64_to_string"@.len() == 13);
            assert("float_to_string"@.len() == 15);
            assert("bool_to_string"@.len() == 14);
            assert("drop_i64"@.len() == 8);
            assert("drop_array"@.len() == 10);
            assert("drop_i64"@[5] != "drop_array"@[5]);
            assert(r@ =~= builtin_names());
        }
        r
    }

    /// Registers each of `added` in turn.
    pub fn insert_all(&mut self, added: &Vec<String>)
        ensures
            final(self)@ == with_names(old(self)@, texts(added@)),
    {
        let mut i: usize = 0;
        assert(texts(added@).take(0) =~= Seq::<Seq<char>>::empty());
        while i < added.len()
            invariant
                i <= added@.len(),
                self@ == with_names(old(self)@, texts(added@).take(i as int)),
            decreases added.len() - i,
        {
            self.insert(added[i].clone());
            assert(texts(added@).take(i + 1).drop_last() =~= texts(added@).take(i as int));
            i = i + 1;
        }
        assert(texts(added@).take(i as int) =~= texts(added@));
    }

    /// Registers the names that one entry brings in.
    pub fn register_entry(&mut self, entry: &TopLevelEntry)
        ensures
            final(self)@ == with_names(old(self)@, entry_names(*entry)),
    {
        proof {
            lemma_with_single_name(self@);
        }
        match entry {
            TopLevelEntry::Function { name } => {
                self.insert(name.clone());
                assert(seq![name@].drop_last() =~= Seq::<Seq<char>>::empty());
            },
            TopLevelEntry::ExternalFn { name } => {
                self.insert(name.clone());
                assert(seq![name@].drop_last() =~= Seq::<Seq<char>>::empty());
            },
            TopLevelEntry::Port { name, methods } => {
                let mut qualified: Vec<String> = Vec::new();
                let mut i: usize = 0;
                while i < methods.len()
                    invariant
                        i <= methods@.len(),
                        qualified@.len() == i,
                        forall|j: int|
                            0 <= j < i ==> #[trigger] qualified@[j]@ == name@ + seq!['.']
                                + methods@[j]@,
                    decreases methods.len() - i,
                {
                    let mut q = name.clone();
                    push_char(&mut q, '.');
                    q.append(methods[i].as_str());
                    qualified.push(q);
                    i = i + 1;
                }
                assert(texts(qualified@) =~= entry_names(*entry));
                self.insert_all(&qualified);
            },
            TopLevelEntry::Import { is_external, items, alias, path } => {
                if *is_external {
                    return;
                }
                if items.len() > 0 {
                    self.insert_all(items);
                } else {
                    let a = match alias {
                        Some(a) => a.clone(),
                        None => default_alias_from_path(path.as_str()),
                    };
                    self.insert(a);
                    assert(seq![a@].drop_last() =~= Seq::<Seq<char>>::empty());
                }
            },
            TopLevelEntry::Other => {},
        }
    }

    /// Registers the names that each of `defs` brings in, in order: a
    /// function's or external function's name, `Port.method` for each
    /// method of a port, and for an import that is not external either the
    /// imported items or the module's alias (its path's file stem when it
    /// has no alias).
    pub fn register_completion_names(&mut self, defs: &[TopLevelEntry])
        ensures
            final(self)@ == with_entries(old(self)@, defs@),
    {
        let mut i: usize = 0;
        assert(defs@.take(0) =~= Seq::<TopLevelEntry>::empty());
        while i < defs.len()
            invariant
                i <= defs@.len(),
                self@ == with_entries(old(self)@, defs@.take(i as int)),
            decreases defs.len() - i,
        {
            self.register_entry(&defs[i]);
            assert(defs@.take(i + 1).drop_last() =~= defs@.take(i as int));
            i = i + 1;
        }
        assert(defs@.take(i as int) =~= defs@);
    }

    /// The registered names in increasing text order (what `:vars` lists).
    pub fn sorted_names(&self) -> (sorted: Vec<String>)
        ensures
            strictly_sorted(texts(sorted@)),
            texts(sorted@).to_set() == self@.to_set(),
            texts(sorted@).len() == self@.len(),
    {
        proof {
            use_type_invariant(self);
        }
        let mut sorted: Vec<String> = Vec::new();
        let mut i: usize = 0;
        assert(texts(sorted@).to_set() =~= self@.take(0).to_set());
        while i < self.names.len()
            invariant
                i <= self.names@.len(),
                self@ == texts(self.names@),
                self@.no_duplicates(),
                strictly_sorted(texts(sorted@)),
                texts(sorted@).to_set() == self@.take(i as int).to_set(),
                texts(sorted@).len() == i,
            decreases self.names.len() - i,
        {
            let x = &self.names[i];
            let ghost xs = x@;
            assert(xs == self@[i as int]);
            assert(!texts(sorted@).contains(xs)) by {
                if texts(sorted@).contains(xs) {
                    assert(self@.take(i as int).to_set().contains(xs));
                    let m = choose|m: int| 0 <= m < i && self@.take(i as int)[m] == xs;
                    assert(self@[m] == self@[i as int]);
                }
            }
            let mut k: usize = 0;
            while k < sorted.len() && text_less_than(sorted[k].as_str(), x.as_str())
                invariant
                    k <= sorted@.len(),
                    xs == x@,
                    forall|j: int| 0 <= j < k ==> text_less(#[trigger] texts(sorted@)[j], xs),
                decreases sorted.len() - k,
            {
                k = k + 1;
            }
            let ghost before = texts(sorted@);
            proof {
                if k < before.len() {
                    assert(before[k as int] != xs) by {
                        assert(before.contains(before[k as int]));
                    }
                    lemma_text_less_total(before[k as int], xs);
                    assert forall|j: int| k <= j < before.len() implies text_less(
                        xs,
                        #[trigger] before[j],
                    ) by {
                        if j > k {
                            lemma_text_less_transitive(xs, before[k as int], before[j]);
                        }
                    }
                }
                lemma_insert_keeps_sorted(before, k as int, xs);
            }
            sorted.insert(k, x.clone());
            assert(texts(sorted@) =~= before.insert(k as int, xs));
            proof {
                lemma_insert_to_set(before, k as int, xs);
                assert(self@.take(i + 1) =~= self@.take(i as int).push(xs));
                self@.take(i as int).lemma_push_to_set_commute(xs);
            }
            i = i + 1;
        }
        assert(self@.take(i as int) =~= self@);
        sorted
    }

    /// Completion at byte offset `pos` of `line`: the byte offset where the
    /// word before the cursor starts, and the registered names that start
    /// with that word, in registration order.
    pub fn complete(&self, line: &str, pos: usize) -> (r: (usize, Vec<String>))
        requires
            vstd::utf8::is_char_boundary(line.spec_bytes(), pos as int),
        ensures
            exists|word: Seq<char>|
                #[trigger] is_completion_word(line@, pos as int, r.0 as int, word) && texts(r.1@)
                    == self@.filter(starts_with_word(word)),
            texts(r.1@).no_duplicates(),
    {
        let (start, word) = extract_word(line, pos);
        let candidates = self.candidates(word.as_str());
        let r = (start, candidates);
        assert(is_completion_word(line@, pos as int, r.0 as int, word@) && texts(r.1@)
            == self@.filter(starts_with_word(word@)));
        r
    }

    /// The registered names that start with `word`, in registration order.
    pub fn candidates(&self, word: &str) -> (c: Vec<String>)
        ensures
            texts(c@) == self@.filter(starts_with_word(word@)),
            texts(c@).no_duplicates(),
    {
        proof {
            use_type_invariant(self);
            lemma_filter_keeps_distinct(self@, starts_with_word(word@));
        }
        let mut c: Vec<String> = Vec::new();
        let mut i: usize = 0;
        assert(self@.take(0) =~= Seq::<Seq<char>>::empty());
        proof {
            reveal_with_fuel(Seq::filter, 1);
        }
        while i < self.names.len()
            invariant
                i <= self.names@.len(),
                self@ == texts(self.names@),
                texts(c@) == self@.take(i as int).filter(starts_with_word(word@)),
            decreases self.names.len() - i,
        {
            let ghost before = c@;
            if starts_with(self.names[i].as_str(), word) {
                c.push(self.names[i].clone());
                assert(texts(c@) =~= texts(before).push(self@[i as int]));
            } else {
                assert(texts(c@) =~= texts(before));
            }
            proof {
                let t = self@.take(i + 1);
                assert(t.drop_last() =~= self@.take(i as int));
                assert(t.last() == self@[i as int]);
                reveal_with_fuel(Seq::filter, 1);
            }
            i = i + 1;
        }
        assert(self@.take(i as int) =~= self@);
        c
    }
}

/// What follows the type check of definitions the shell has read: when the
/// check passed (`check_passed`), the names their completion entries
/// (`entries`) bring in are registered and the definitions join those
/// accepted so far; when it failed, the registry and the accepted
/// definitions are left as they were.
pub fn accept_checked_definitions<D>(
    registry: &mut NameRegistry,
    accepted: &mut Vec<D>,
    defs: Vec<D>,
    entries: &[TopLevelEntry],
    check_passed: bool,
)
    ensures
        check_passed ==> final(registry)@ == with_entries(old(registry)@, entries@),
        check_passed ==> final(accepted)@ == old(accepted)@ + defs@,
        !check_passed ==> final(registry)@ == old(registry)@,
        !check_passed ==> final(accepted)@ == old(accepted)@,
{
    if check_passed {
        registry.register_completion_names(entries);
        let mut defs = defs;
        accepted.append(&mut defs);
    }
}

} // verus!
