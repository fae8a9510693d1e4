//! The `compadd` capture shadow: while an in-editor dispatch runs, the
//! matches `compadd` proposes are collected into the capture buffer
//! instead of the interactive match list.

use vstd::prelude::*;

use crate::compsys::cursor::same_text;
use crate::compsys::in_editor::CompsysMatch;

verus! {

/// `compadd -a`: the words are array names, the matches their elements.
pub const CAF_ARRAYS: i32 = 32;

/// `compadd -k`: the words are names of associative arrays, the matches
/// their keys (a plain array contributes its elements).
pub const CAF_KEYS: i32 = 64;

/// What `compadd` parsed from its flags, as far as the capture reads it.
#[derive(Debug)]
pub struct Cadata {
    /// The `CAF_*` flag bits.
    pub aflags: i32,
    /// `-d`: name of the array of per-match descriptions.
    pub disp: Option<String>,
    /// `-X`: one explanation for the whole batch.
    pub exp: Option<String>,
    /// `-J` / `-V`: the group label.
    pub group: Option<String>,
    /// `-O`: name of the array that receives the candidates.
    pub opar: Option<String>,
    /// `-A`: name of the array that receives the candidates.
    pub apar: Option<String>,
    /// `-D`: names of the arrays narrowed in place.
    pub dpar: Vec<String>,
}

/// The shell parameters a capture reads: arrays by name with their
/// elements, and associative arrays by name with their keys.
#[derive(Debug)]
pub struct ParamTable {
    pub arrays: Vec<(String, Vec<String>)>,
    pub assocs: Vec<(String, Vec<String>)>,
}

/// The values of the first entry named `name`, if any.
pub open spec fn lookup(entries: Seq<(String, Vec<String>)>, name: Seq<char>) -> Option<Seq<String>>
    decreases entries.len(),
{
    if entries.len() == 0 {
        None
    } else if entries[0].0@ == name {
        Some(entries[0].1@)
    } else {
        lookup(entries.drop_first(), name)
    }
}

/// The values of `o`, or nothing.
pub open spec fn or_empty(o: Option<Seq<String>>) -> Seq<String> {
    match o {
        Some(v) => v,
        None => Seq::empty(),
    }
}

/// Under `-k`, what the name `name` contributes: an associative array's
/// keys, else a plain array's elements, else nothing.
pub open spec fn keys_or_elements(t: ParamTable, name: Seq<char>) -> Seq<String> {
    match lookup(t.assocs@, name) {
        Some(keys) => keys,
        None => or_empty(lookup(t.arrays@, name)),
    }
}

/// What one word of a `compadd` call contributes to its match list.
pub open spec fn word_matches(t: ParamTable, aflags: i32, w: String) -> Seq<String> {
    if aflags & CAF_ARRAYS != 0 {
        or_empty(lookup(t.arrays@, w@))
    } else if aflags & CAF_KEYS != 0 {
        keys_or_elements(t, w@)
    } else {
        seq![w]
    }
}

/// The matches a `compadd` call proposes, word by word, in order.
pub open spec fn proposed_matches(t: ParamTable, aflags: i32, words: Seq<String>) -> Seq<String>
    decreases words.len(),
{
    if words.len() == 0 {
        Seq::empty()
    } else {
        proposed_matches(t, aflags, words.drop_last()) + word_matches(t, aflags, words.last())
    }
}

/// The per-match descriptions: the elements of the `-d` array.
pub open spec fn descriptions(t: ParamTable, dat: Cadata) -> Seq<String> {
    match dat.disp {
        Some(name) => or_empty(lookup(t.arrays@, name@)),
        None => Seq::empty(),
    }
}

/// A query form (`-O`, `-A`, `-D`): it stores candidates in parameters
/// and proposes nothing.
pub open spec fn is_query(dat: Cadata) -> bool {
    dat.opar is Some || dat.apar is Some || dat.dpar@.len() > 0
}

/// The captured entry for the `idx`-th proposed match `m`: description
/// `idx` of the display array when it has one, else the batch
/// explanation; the batch's group; replacement from `replace_start`, the
/// start of the word under the cursor.
pub open spec fn captured_entry(m: String, idx: int, descs: Seq<String>, dat: Cadata, replace_start: usize) -> CompsysMatch {
    CompsysMatch {
        completion: m,
        description: if idx < descs.len() {
            Some(descs[idx])
        } else {
            dat.exp
        },
        group: dat.group,
        replace_start,
    }
}

/// The captured entries for the proposed matches `ms`.
pub open spec fn captured_entries(ms: Seq<String>, descs: Seq<String>, dat: Cadata, replace_start: usize) -> Seq<CompsysMatch> {
    Seq::new(ms.len(), |i: int| captured_entry(ms[i], i, descs, dat, replace_start))
}

/// A lookup finds the first entry of the given name: its values when
/// there is one, and nothing when no entry has that name.
pub proof fn lemma_lookup_finds_first(entries: Seq<(String, Vec<String>)>, name: Seq<char>, k: int)
    requires
        0 <= k < entries.len(),
        entries[k].0@ == name,
        forall|j: int| 0 <= j < k ==> (#[trigger] entries[j]).0@ != name,
    ensures
        lookup(entries, name) == Some(entries[k].1@),
    decreases k,
{
    if k > 0 {
        let rest = entries.drop_first();
        assert forall|j: int| 0 <= j < k - 1 implies (#[trigger] rest[j]).0@ != name by {
            assert(rest[j] == entries[j + 1]);
        }
        assert(entries[0].0@ != name);
        lemma_lookup_finds_first(rest, name, k - 1);
    }
}

/// A name that no entry has is found nowhere.
pub proof fn lemma_lookup_missing(entries: Seq<(String, Vec<String>)>, name: Seq<char>)
    requires
        forall|j: int| 0 <= j < entries.len() ==> (#[trigger] entries[j]).0@ != name,
    ensures
        lookup(entries, name) is None,
    decreases entries.len(),
{
    if entries.len() > 0 {
        let rest = entries.drop_first();
        assert forall|j: int| 0 <= j < rest.len() implies (#[trigger] rest[j]).0@ != name by {
            assert(rest[j] == entries[j + 1]);
        }
        assert(entries[0].0@ != name);
        lemma_lookup_missing(rest, name);
    }
}

/// Which kind of words a `compadd` call has (`-a`, `-k` or plain) does not
/// change how its matches are described: the `-d` array describes them
/// in every case.
pub proof fn lemma_descriptions_ignore_word_kind(t: ParamTable, dat: Cadata, aflags: i32)
    ensures
        descriptions(t, dat) == descriptions(t, Cadata { aflags, ..dat }),
        dat.disp matches Some(name) ==> descriptions(t, dat) == or_empty(lookup(t.arrays@, name@)),
        dat.disp is None ==> descriptions(t, dat).len() == 0,
{
}

/// The index of the first entry named `name` (`getaparam` /
/// `gethkparam`).
fn find_param(entries: &Vec<(String, Vec<String>)>, name: &str) -> (r: Option<usize>)
    ensures
        match r {
            Some(k) => k < entries@.len() && lookup(entries@, name@) == Some(entries@[k as int].1@),
            None => lookup(entries@, name@) is None,
        },
{
    let mut i: usize = 0;
    assert(entries@.skip(0) =~= entries@);
    while i < entries.len()
        invariant
            i <= entries@.len(),
            lookup(entries@, name@) == lookup(entries@.skip(i as int), name@),
        decreases entries@.len() - i,
    {
        let ghost rest = entries@.skip(i as int);
        assert(rest[0] == entries@[i as int]);
        if same_text(entries[i].0.as_str(), name) {
            return Some(i);
        }
        assert(rest.drop_first() =~= entries@.skip(i + 1));
        i = i + 1;
    }
    None
}

/// A copy of `s`, field for field.
fn copy_string(s: &String) -> (r: String)
    ensures
        r == *s,
{
    s.clone()
}

/// A copy of an optional string.
fn copy_opt(s: &Option<String>) -> (r: Option<String>)
    ensures
        r == *s,
{
    match s {
        Some(v) => Some(copy_string(v)),
        None => None,
    }
}

/// Append copies of `src` to `dst`, in order.
fn append_all(dst: &mut Vec<String>, src: &Vec<String>)
    ensures
        final(dst)@ == old(dst)@ + src@,
{
    let mut i: usize = 0;
    while i < src.len()
        invariant
            i <= src@.len(),
            dst@ == old(dst)@ + src@.take(i as int),
        decreases src@.len() - i,
    {
        dst.push(copy_string(&src[i]));
        assert(src@.take(i + 1) =~= src@.take(i as int).push(src@[i as int]));
        i = i + 1;
    }
    assert(src@.take(src@.len() as int) =~= src@);
}

/// Append the elements of the array named `name`, if there is one.
fn append_array(dst: &mut Vec<String>, params: &ParamTable, name: &str)
    ensures
        final(dst)@ == old(dst)@ + or_empty(lookup(params.arrays@, name@)),
{
    match find_param(&params.arrays, name) {
        Some(k) => append_all(dst, &params.arrays[k].1),
        None => {
            assert(old(dst)@ + Seq::<String>::empty() =~= old(dst)@);
        },
    }
}

/// The matches a `compadd` call proposes (see [`proposed_matches`]).
fn collect_matches(params: &ParamTable, aflags: i32, words: &[String]) -> (r: Vec<String>)
    ensures
        r@ == proposed_matches(*params, aflags, words@),
{
    let mut out: Vec<String> = Vec::new();
    let mut i: usize = 0;
    while i < words.len()
        invariant
            i <= words@.len(),
            out@ == proposed_matches(*params, aflags, words@.take(i as int)),
        decreases words@.len() - i,
    {
        let w = &words[i];
        let ghost before = out@;
        if aflags & CAF_ARRAYS != 0 {
            append_array(&mut out, params, w.as_str());
        } else if aflags & CAF_KEYS != 0 {
            match find_param(&params.assocs, w.as_str()) {
                Some(k) => append_all(&mut out, &params.assocs[k].1),
                None => append_array(&mut out, params, w.as_str()),
            }
        } else {
            out.push(copy_string(w));
        }
        proof {
            let next = words@.take(i + 1);
            assert(next.drop_last() =~= words@.take(i as int));
            assert(next.last() == words@[i as int]);
            assert(out@ =~= before + word_matches(*params, aflags, words@[i as int]));
        }
        i = i + 1;
    }
    assert(words@.take(words@.len() as int) =~= words@);
    out
}

/// The per-match descriptions (see [`descriptions`]).
fn collect_descriptions(params: &ParamTable, dat: &Cadata) -> (r: Vec<String>)
    ensures
        r@ == descriptions(*params, *dat),
        r@ == match dat.disp {
            Some(name) => or_empty(lookup(params.arrays@, name@)),
            None => Seq::empty(),
        },
{
    let mut out: Vec<String> = Vec::new();
    match &dat.disp {
        Some(name) => append_array(&mut out, params, name.as_str()),
        None => {},
    }
    assert(out@ =~= descriptions(*params, *dat));
    out
}

/// Called from `compadd` — after its flag parse, with the parsed
/// [`Cadata`] and the residual match words — while an in-editor dispatch
/// may have the capture shadow active.
///
/// An inactive capture (`None`) or a query form (`-O`, `-A`, `-D`)
/// returns `false` and changes nothing: the real `compadd` path must run.
/// Otherwise one [`CompsysMatch`] per proposed match is appended to the
/// capture and the call returns `true`. The proposed matches are the
/// words themselves, or with `-a` the elements of the arrays they name,
/// or with `-k` the keys of the associative arrays they name (a plain
/// array contributing its elements); match `i` is described by element
/// `i` of the `-d` array, else by the `-X` explanation, and replaces the
/// line from `replace_start` (the dispatch passes the start of the word
/// under the cursor).
pub fn try_capture_compadd(
    capture: &mut Option<Vec<CompsysMatch>>,
    params: &ParamTable,
    dat: &Cadata,
    words: &[String],
    replace_start: usize,
) -> (r: bool)
    ensures
        *old(capture) is None ==> !r && *final(capture) == *old(capture),
        *old(capture) is Some && is_query(*dat) ==> !r && *final(capture) == *old(capture),
        *old(capture) is Some && !is_query(*dat) ==> {
            &&& r
            &&& *final(capture) matches Some(v) && v@ == (*old(capture))->0@ + captured_entries(
                proposed_matches(*params, dat.aflags, words@),
                descriptions(*params, *dat),
                *dat,
                replace_start,
            )
        },
        *old(capture) is Some && !is_query(*dat) ==> forall|i: int|
            #![trigger proposed_matches(*params, dat.aflags, words@)[i]]
            0 <= i < proposed_matches(*params, dat.aflags, words@).len() ==> {
                let m = (*final(capture))->0@[(*old(capture))->0@.len() + i];
                &&& m.completion == proposed_matches(*params, dat.aflags, words@)[i]
                &&& m.group == dat.group
                &&& m.replace_start == replace_start
                &&& m.description == match dat.disp {
                    Some(name) => match lookup(params.arrays@, name@) {
                        Some(ds) => if i < ds.len() {
                            Some(ds[i])
                        } else {
                            dat.exp
                        },
                        None => dat.exp,
                    },
                    None => dat.exp,
                }
            },
{
    if capture.is_none() {
        return false;
    }
    if dat.opar.is_some() || dat.apar.is_some() || dat.dpar.len() > 0 {
        return false;
    }
    let matches = collect_matches(params, dat.aflags, words);
    let descs = collect_descriptions(params, dat);
    let mut buf = capture.take().unwrap();
    let ghost start = buf@;
    let ghost entries = captured_entries(matches@, descs@, *dat, replace_start);
    let mut idx: usize = 0;
    while idx < matches.len()
        invariant
            idx <= matches@.len(),
            entries == captured_entries(matches@, descs@, *dat, replace_start),
            buf@ == start + entries.take(idx as int),
        decreases matches@.len() - idx,
    {
        let description = if idx < descs.len() {
            Some(copy_string(&descs[idx]))
        } else {
            copy_opt(&dat.exp)
        };
        let m = CompsysMatch {
            completion: copy_string(&matches[idx]),
            description,
            group: copy_opt(&dat.group),
            replace_start,
        };
        buf.push(m);
        assert(entries.take(idx + 1) =~= entries.take(idx as int).push(entries[idx as int]));
        idx = idx + 1;
    }
    assert(entries.take(matches@.len() as int) =~= entries);
    *capture = Some(buf);
    true
}

} // verus!
