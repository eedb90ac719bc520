//! Origin filtering: a record passes when its origin matches one of the
//! configured patterns, or when the configuration asks for every origin.

use vstd::prelude::*;

verus! {

/// Whether a pattern compiles as a regular expression.
pub uninterp spec fn pattern_compiles(pattern: Seq<char>) -> bool;

/// Whether the regular expression of a pattern matches somewhere in a text.
pub uninterp spec fn pattern_matches(pattern: Seq<char>, text: Seq<char>) -> bool;

/// The lower-case form of a text.
pub uninterp spec fn lower_of(s: Seq<char>) -> Seq<char>;

#[verifier::external_type_specification]
#[verifier::external_body]
pub struct ExRegex(regex::Regex);

#[verifier::external_type_specification]
#[verifier::external_body]
pub struct ExRegexError(regex::Error);

/// Relies on regex::Regex::new: whether a pattern compiles depends on the
/// pattern alone.
#[verifier::external_body]
fn compile_regex(pattern: &str) -> (r: Result<regex::Regex, regex::Error>)
    ensures
        r is Ok <==> pattern_compiles(pattern@),
{
    regex::Regex::new(pattern)
}

/// Relies on regex::Regex::is_match: whether the expression matches somewhere
/// in the text. A `Pattern`'s expression is only ever compiled from its own
/// source, by `Pattern::compile`.
#[verifier::external_body]
fn regex_is_match(pattern: &Pattern, text: &str) -> (r: bool)
    ensures
        r == pattern_matches(pattern@, text@),
{
    pattern.compiled.is_match(text)
}

/// Relies on str::to_lowercase: the result depends on the text alone.
#[verifier::external_body]
fn lowercase(s: &str) -> (r: String)
    ensures
        r@ == lower_of(s@),
{
    s.to_lowercase()
}

/// A pattern together with the regular expression compiled from it.
pub struct Pattern {
    source: String,
    compiled: regex::Regex,
}

/// A pattern that did not compile, with the error that the compiler gave.
pub struct RejectedPattern {
    pub pattern: String,
    pub error: regex::Error,
}

impl View for Pattern {
    type V = Seq<char>;

    closed spec fn view(&self) -> Seq<char> {
        self.source@
    }
}

impl Pattern {
    /// Compiles a pattern; a pattern that does not compile comes back with its error.
    pub fn compile(source: String) -> (r: Result<Pattern, RejectedPattern>)
        ensures
            r is Ok <==> pattern_compiles(source@),
            r matches Ok(p) ==> p@ == source@,
            r matches Err(e) ==> e.pattern@ == source@,
    {
        match compile_regex(source.as_str()) {
            Ok(compiled) => Ok(Pattern { source, compiled }),
            Err(error) => Err(RejectedPattern { pattern: source, error }),
        }
    }

    /// The text of this pattern.
    pub fn source(&self) -> (r: &str)
        ensures
            r@ == self@,
    {
        self.source.as_str()
    }

    /// Whether this pattern matches somewhere in `text`.
    pub fn is_match(&self, text: &str) -> (r: bool)
        ensures
            r == pattern_matches(self@, text@),
    {
        regex_is_match(self, text)
    }
}

/// The pieces of a text between its commas, in order; a text without a comma
/// is one piece.
pub open spec fn split_commas(s: Seq<char>) -> Seq<Seq<char>>
    decreases s.len(),
{
    if s.len() == 0 {
        seq![Seq::<char>::empty()]
    } else {
        let prev = split_commas(s.drop_last());
        if s.last() == ',' {
            prev.push(Seq::<char>::empty())
        } else {
            prev.update(prev.len() - 1, prev.last().push(s.last()))
        }
    }
}

/// Whether a configured entry asks for every origin: it reads `all` in any case.
pub open spec fn is_all_marker(entry: Seq<char>) -> bool {
    lower_of(entry) == "all"@
}

/// Whether some configured entry asks for every origin.
pub open spec fn has_all_marker(entries: Seq<Seq<char>>) -> bool {
    exists|i: int| 0 <= i < entries.len() && is_all_marker(#[trigger] entries[i])
}

/// The configured entries that compile, in order.
pub open spec fn compiled_sources(entries: Seq<Seq<char>>) -> Seq<Seq<char>>
    decreases entries.len(),
{
    if entries.len() == 0 {
        Seq::empty()
    } else {
        let prev = compiled_sources(entries.drop_last());
        if pattern_compiles(entries.last()) {
            prev.push(entries.last())
        } else {
            prev
        }
    }
}

/// The configured entries that do not compile, in order.
pub open spec fn rejected_sources(entries: Seq<Seq<char>>) -> Seq<Seq<char>>
    decreases entries.len(),
{
    if entries.len() == 0 {
        Seq::empty()
    } else {
        let prev = rejected_sources(entries.drop_last());
        if pattern_compiles(entries.last()) {
            prev
        } else {
            prev.push(entries.last())
        }
    }
}

/// The decision of a filter: every origin passes when `all` is set, otherwise
/// an origin passes when one of the patterns matches it.
pub open spec fn filter_passes(all: bool, sources: Seq<Seq<char>>, origin: Seq<char>) -> bool {
    all || exists|i: int| 0 <= i < sources.len() && pattern_matches(#[trigger] sources[i], origin)
}

/// The decision that a configuration asks for: every origin passes when an
/// entry reads `all`, otherwise an origin passes when an entry that compiles
/// matches it.
pub open spec fn config_passes(entries: Seq<Seq<char>>, origin: Seq<char>) -> bool {
    has_all_marker(entries) || exists|i: int|
        0 <= i < entries.len() && pattern_compiles(#[trigger] entries[i]) && pattern_matches(
            entries[i],
            origin,
        )
}

/// The entries of a configuration: the comma-separated list when one is set,
/// otherwise the single default entry.
pub open spec fn configured_entries(setting: Option<Seq<char>>, default_entry: Seq<char>) -> Seq<Seq<char>> {
    match setting {
        Some(csv) => split_commas(csv),
        None => seq![default_entry],
    }
}

proof fn lemma_compiled_sources_members(entries: Seq<Seq<char>>, x: Seq<char>)
    ensures
        compiled_sources(entries).contains(x) <==> exists|i: int|
            0 <= i < entries.len() && pattern_compiles(#[trigger] entries[i]) && entries[i] == x,
    decreases entries.len(),
{
    if entries.len() > 0 {
        let init = entries.drop_last();
        lemma_compiled_sources_members(init, x);
        let prev = compiled_sources(init);
        if compiled_sources(entries).contains(x) {
            if !prev.contains(x) {
                assert(pattern_compiles(entries.last()));
                let j = choose|j: int| 0 <= j < compiled_sources(entries).len() && compiled_sources(entries)[j] == x;
                assert(j == prev.len() as int);
                assert(entries[entries.len() - 1] == x);
            } else {
                let i = choose|i: int| 0 <= i < init.len() && pattern_compiles(#[trigger] init[i]) && init[i] == x;
                assert(entries[i] == init[i]);
            }
        }
        if exists|i: int| 0 <= i < entries.len() && pattern_compiles(#[trigger] entries[i]) && entries[i] == x {
            let i = choose|i: int| 0 <= i < entries.len() && pattern_compiles(#[trigger] entries[i]) && entries[i] == x;
            if i < init.len() {
                assert(init[i] == entries[i]);
                assert(prev.contains(x));
                let j = choose|j: int| 0 <= j < prev.len() && prev[j] == x;
                if pattern_compiles(entries.last()) {
                    assert(compiled_sources(entries)[j] == x);
                }
            } else {
                assert(compiled_sources(entries) == prev.push(x));
                assert(compiled_sources(entries)[prev.len() as int] == x);
            }
        }
    }
}

/// A filter built from configured entries passes exactly the origins that the
/// configuration asks for: all of them when an entry reads `all`, otherwise
/// those that an entry which compiles matches.
pub proof fn lemma_filter_follows_config(entries: Seq<Seq<char>>, origin: Seq<char>)
    ensures
        filter_passes(has_all_marker(entries), compiled_sources(entries), origin) == config_passes(
            entries,
            origin,
        ),
{
    let sources = compiled_sources(entries);
    if exists|i: int| 0 <= i < sources.len() && pattern_matches(#[trigger] sources[i], origin) {
        let i = choose|i: int| 0 <= i < sources.len() && pattern_matches(#[trigger] sources[i], origin);
        lemma_compiled_sources_members(entries, sources[i]);
        assert(sources.contains(sources[i]));
    }
    if exists|i: int|
        0 <= i < entries.len() && pattern_compiles(#[trigger] entries[i]) && pattern_matches(
            entries[i],
            origin,
        ) {
        let i = choose|i: int|
            0 <= i < entries.len() && pattern_compiles(#[trigger] entries[i]) && pattern_matches(
                entries[i],
                origin,
            );
        lemma_compiled_sources_members(entries, entries[i]);
        let j = choose|j: int| 0 <= j < sources.len() && sources[j] == entries[i];
        assert(pattern_matches(sources[j], origin));
    }
}

/// A filter built from entries one of which reads `all` passes every origin,
/// whatever the other entries are.
pub proof fn lemma_allow_all_passes(entries: Seq<Seq<char>>, origin: Seq<char>)
    requires
        has_all_marker(entries),
    ensures
        filter_passes(has_all_marker(entries), compiled_sources(entries), origin),
{
}

/// Splits a comma-separated list into its entries.
pub fn split_targets(csv: &str) -> (r: Vec<String>)
    ensures
        r@.map_values(|t: String| t@) == split_commas(csv@),
{
    let n = csv.unicode_len();
    let mut pieces: Vec<String> = Vec::new();
    let mut start: usize = 0;
    let mut i: usize = 0;
    assert(csv@.subrange(0, 0) =~= Seq::<char>::empty());
    assert(pieces@.map_values(|t: String| t@).push(csv@.subrange(0, 0)) =~= seq![
        Seq::<char>::empty(),
    ]);
    while i < n
        invariant
            n == csv@.len(),
            start <= i <= n,
            pieces@.map_values(|t: String| t@).push(csv@.subrange(start as int, i as int))
                == split_commas(csv@.subrange(0, i as int)),
        decreases n - i,
    {
        let ghost old_pieces = pieces@.map_values(|t: String| t@);
        let ghost old_start = start;
        let c = csv.get_char(i);
        if c == ',' {
            let piece = String::from_str(csv.substring_char(start, i));
            pieces.push(piece);
            start = i + 1;
        }
        proof {
            let s = csv@.subrange(0, i + 1);
            assert(s.drop_last() =~= csv@.subrange(0, i as int));
            assert(s.last() == c);
            let prev = split_commas(s.drop_last());
            if c == ',' {
                assert(pieces@.map_values(|t: String| t@) =~= old_pieces.push(
                    csv@.subrange(old_start as int, i as int),
                ));
                assert(csv@.subrange(start as int, i + 1) =~= Seq::<char>::empty());
            } else {
                assert(prev.last() == csv@.subrange(start as int, i as int));
                assert(prev.last().push(c) =~= csv@.subrange(start as int, i + 1));
                assert(pieces@.map_values(|t: String| t@).push(csv@.subrange(start as int, i + 1))
                    =~= prev.update(prev.len() - 1, prev.last().push(c)));
            }
        }
        i = i + 1;
    }
    let ghost before = pieces@.map_values(|t: String| t@);
    let last = String::from_str(csv.substring_char(start, n));
    pieces.push(last);
    assert(csv@.subrange(0, n as int) =~= csv@);
    assert(pieces@.map_values(|t: String| t@) =~= before.push(csv@.subrange(start as int, n as int)));
    pieces
}

/// The patterns that decide which origins pass, with a switch that lets every
/// origin pass.
pub struct LogTargets {
    targets: Vec<Pattern>,
    /// Set when the configuration asks for every origin.
    all: bool,
}

impl LogTargets {
    /// The sources of the patterns, in order.
    pub closed spec fn sources(&self) -> Seq<Seq<char>> {
        self.targets@.map_values(|p: Pattern| p@)
    }

    /// Whether every origin passes.
    pub closed spec fn allows_all(&self) -> bool {
        self.all
    }

    /// Builds a filter from configured entries. Each entry is compiled; those
    /// that do not compile are left out and handed back with their errors.
    /// An entry that reads `all`, in any case, lets every origin pass.
    pub fn from_patterns(entries: &Vec<String>) -> (r: (LogTargets, Vec<RejectedPattern>))
        ensures
            r.0.allows_all() == has_all_marker(entries@.map_values(|t: String| t@)),
            r.0.sources() == compiled_sources(entries@.map_values(|t: String| t@)),
            r.1@.map_values(|e: RejectedPattern| e.pattern@) == rejected_sources(
                entries@.map_values(|t: String| t@),
            ),
    {
        let ghost es = entries@.map_values(|t: String| t@);
        let all_word = String::from_str("all");
        proof {
            reveal_strlit("all");
        }
        let mut all = false;
        let mut targets: Vec<Pattern> = Vec::new();
        let mut rejected: Vec<RejectedPattern> = Vec::new();
        let mut i: usize = 0;
        assert(es.subrange(0, 0) =~= Seq::<Seq<char>>::empty());
        assert(targets@.map_values(|p: Pattern| p@) =~= Seq::<Seq<char>>::empty());
        assert(rejected@.map_values(|e: RejectedPattern| e.pattern@) =~= Seq::<Seq<char>>::empty());
        while i < entries.len()
            invariant
                es == entries@.map_values(|t: String| t@),
                all_word@ == "all"@,
                i <= entries.len(),
                all == has_all_marker(es.subrange(0, i as int)),
                targets@.map_values(|p: Pattern| p@) == compiled_sources(es.subrange(0, i as int)),
                rejected@.map_values(|e: RejectedPattern| e.pattern@) == rejected_sources(
                    es.subrange(0, i as int),
                ),
            decreases entries.len() - i,
        {
            let ghost pre = es.subrange(0, i as int);
            let ghost post = es.subrange(0, i + 1);
            let ghost old_targets = targets@.map_values(|p: Pattern| p@);
            let ghost old_rejected = rejected@.map_values(|e: RejectedPattern| e.pattern@);
            proof {
                assert(post.drop_last() =~= pre);
                assert(post.last() == es[i as int]);
            }
            let entry = &entries[i];
            let lower = lowercase(entry.as_str());
            if lower == all_word {
                all = true;
            }
            proof {
                if all {
                    if has_all_marker(pre) {
                        let k = choose|k: int| 0 <= k < pre.len() && is_all_marker(#[trigger] pre[k]);
                        assert(post[k] == pre[k]);
                    } else {
                        assert(is_all_marker(post[i as int]));
                    }
                } else {
                    assert forall|k: int| 0 <= k < post.len() implies !is_all_marker(#[trigger] post[k]) by {
                        if k < i {
                            assert(post[k] == pre[k]);
                        }
                    }
                }
            }
            match Pattern::compile(entry.clone()) {
                Ok(p) => {
                    targets.push(p);
                    assert(targets@.map_values(|p: Pattern| p@) =~= old_targets.push(es[i as int]));
                },
                Err(e) => {
                    rejected.push(e);
                    assert(rejected@.map_values(|e: RejectedPattern| e.pattern@) =~= old_rejected.push(
                        es[i as int],
                    ));
                },
            }
            i = i + 1;
        }
        assert(es.subrange(0, i as int) =~= es);
        (LogTargets { targets, all }, rejected)
    }

    /// Builds a filter from a comma-separated setting, or, when none is set,
    /// from the single default entry.
    pub fn from_config(setting: Option<&str>, default_target: &str) -> (r: (LogTargets, Vec<RejectedPattern>))
        ensures
            ({
                let es = configured_entries(
                    match setting {
                        Some(s) => Some(s@),
                        None => None,
                    },
                    default_target@,
                );
                &&& r.0.allows_all() == has_all_marker(es)
                &&& r.0.sources() == compiled_sources(es)
                &&& r.1@.map_values(|e: RejectedPattern| e.pattern@) == rejected_sources(es)
            }),
    {
        let entries = match setting {
            Some(csv) => split_targets(csv),
            None => {
                let mut v: Vec<String> = Vec::new();
                v.push(String::from_str(default_target));
                assert(v@.map_values(|t: String| t@) =~= seq![default_target@]);
                v
            },
        };
        LogTargets::from_patterns(&entries)
    }

    /// Whether a record from `origin` passes this filter.
    pub fn enabled(&self, origin: &str) -> (r: bool)
        ensures
            r == filter_passes(self.allows_all(), self.sources(), origin@),
    {
        if self.all {
            return true;
        }
        let mut i: usize = 0;
        while i < self.targets.len()
            invariant
                !self.all,
                i <= self.targets.len(),
                forall|k: int| 0 <= k < i ==> !pattern_matches(#[trigger] self.sources()[k], origin@),
            decreases self.targets.len() - i,
        {
            if self.targets[i].is_match(origin) {
                assert(pattern_matches(self.sources()[i as int], origin@));
                return true;
            }
            i = i + 1;
        }
        false
    }
}

} // verus!
