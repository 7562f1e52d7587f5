//! Resolving the arguments that the launcher does not recognise.
//!
//! The command line parser puts the first token it does not recognise, and all
//! that follows it, aside. What becomes of these tokens depends on the interface
//! version that the caller declared:
//!
//! | declared version             | unrecognised tokens        |
//! |------------------------------|----------------------------|
//! | none                         | rejected                   |
//! | the launcher's own           | rejected                   |
//! | supported, not the own       | tolerated, with a warning  |
//! | outside the supported range  | the version is rejected    |
//!
//! Tolerating works in rounds. The first token that was put aside is dropped
//! and remembered, the tokens behind it are parsed again, and the parser puts
//! aside what it still does not recognise. The rounds end when nothing is left.
//! The parser is not part of this library: an [`ArgumentResolver`] says what is
//! to be parsed next and takes what the parser put aside, round by round
//! ([`ArgumentResolver::strip`], [`ArgumentResolver::reparsed`]) or with the
//! parser handed in as a function ([`ArgumentResolver::run`]).

use vstd::prelude::*;
use crate::config::LaunchConfiguration;
use crate::version::{
    is_own, is_supported, standing, standing_of, InterfaceVersion, Standing, VersionView,
};

verus! {

/// How unrecognised arguments are treated.
#[derive(Clone, Copy, Debug, PartialEq, Eq, Structural)]
pub enum Leniency {
    /// Every unrecognised argument is an error.
    Strict,
    /// Unrecognised arguments are dropped and reported in a warning.
    Tolerant,
}

/// The decision table: how a standing treats unrecognised arguments, or `None`
/// where the declared version itself is refused.
pub open spec fn leniency_of(s: Standing) -> Option<Leniency> {
    match s {
        Standing::Undeclared => Some(Leniency::Strict),
        Standing::Identical => Some(Leniency::Strict),
        Standing::Compatible => Some(Leniency::Tolerant),
        Standing::Unsupported => None,
    }
}

/// Looks a standing up in the decision table.
pub fn leniency(s: Standing) -> (r: Option<Leniency>)
    ensures
        r == leniency_of(s),
{
    match s {
        Standing::Undeclared => Some(Leniency::Strict),
        Standing::Identical => Some(Leniency::Strict),
        Standing::Compatible => Some(Leniency::Tolerant),
        Standing::Unsupported => None,
    }
}

/// Why the arguments were refused. Either ends the startup.
#[derive(Clone, Debug, PartialEq, Eq)]
pub enum ResolutionError {
    /// This argument is not recognised, and nothing is tolerated.
    UnknownArgument(String),
    /// The declared interface version is outside the supported range.
    UnsupportedVersion(InterfaceVersion),
}

/// A [`ResolutionError`] as a mathematical value.
pub enum ResolutionErrorView {
    UnknownArgument(Seq<char>),
    UnsupportedVersion(VersionView),
}

impl View for ResolutionError {
    type V = ResolutionErrorView;

    open spec fn view(&self) -> ResolutionErrorView {
        match self {
            ResolutionError::UnknownArgument(token) => ResolutionErrorView::UnknownArgument(
                token@,
            ),
            ResolutionError::UnsupportedVersion(version) => ResolutionErrorView::UnsupportedVersion(
                version@,
            ),
        }
    }
}

/// The state of a resolution, as a mathematical value.
pub struct ResolverView {
    /// Whether the caller declared an interface version.
    pub version_declared: bool,
    /// The tokens dropped so far, in the order in which they were dropped.
    pub tolerated: Seq<Seq<char>>,
    /// The tokens that the last parse put aside and that are not dealt with yet.
    pub pending: Seq<Seq<char>>,
}

/// Whether `tail` is what remains of `whole` after dropping some tokens at its front.
pub open spec fn is_suffix(tail: Seq<Seq<char>>, whole: Seq<Seq<char>>) -> bool {
    tail.len() <= whole.len() && whole.skip(whole.len() - tail.len()) =~= tail
}

/// How a resolution begins, given the declared version and the tokens that the
/// first parse put aside.
pub open spec fn begin_of(declared: Option<VersionView>, unknown: Seq<Seq<char>>) -> Result<
    ResolverView,
    ResolutionErrorView,
> {
    match leniency_of(standing_of(declared)) {
        None => Err(ResolutionErrorView::UnsupportedVersion(declared->0)),
        Some(found) => if found == Leniency::Strict && unknown.len() > 0 {
            Err(ResolutionErrorView::UnknownArgument(unknown.first()))
        } else {
            Ok(
                ResolverView {
                    version_declared: declared is Some,
                    tolerated: Seq::empty(),
                    pending: unknown,
                },
            )
        },
    }
}

/// One round, first half: the first pending token is dropped and remembered.
/// What stays pending is what the parser is to see next.
pub open spec fn strip_of(s: ResolverView) -> ResolverView {
    if s.pending.len() == 0 {
        s
    } else {
        ResolverView {
            version_declared: s.version_declared,
            tolerated: s.tolerated.push(s.pending.first()),
            pending: s.pending.drop_first(),
        }
    }
}

/// One round, second half: the parser has seen the pending tokens and put
/// `unknown` aside. That is taken over if it is a tail of what the parser saw;
/// anything else is ignored, and all the tokens stay pending.
pub open spec fn reparsed_of(s: ResolverView, unknown: Seq<Seq<char>>) -> ResolverView {
    if is_suffix(unknown, s.pending) {
        ResolverView {
            version_declared: s.version_declared,
            tolerated: s.tolerated,
            pending: unknown,
        }
    } else {
        s
    }
}

/// The tokens that have been dropped when all rounds are over, for a parser that
/// puts `parser(tokens)` aside when it sees `tokens`.
pub open spec fn tolerated_with(
    parser: spec_fn(Seq<Seq<char>>) -> Seq<Seq<char>>,
    s: ResolverView,
) -> Seq<Seq<char>>
    decreases s.pending.len(),
{
    if s.pending.len() == 0 {
        s.tolerated
    } else {
        let stripped = strip_of(s);
        tolerated_with(parser, reparsed_of(stripped, parser(stripped.pending)))
    }
}

/// Whether the state `after` can come of the state `before` by rounds, whatever
/// the parser puts aside: the tokens dropped before are still the first that
/// were dropped, the next one dropped is the first that was pending, and no
/// more tokens were dropped than were pending.
pub open spec fn carries_on(before: ResolverView, after: ResolverView) -> bool {
    let n = before.tolerated.len() as int;
    &&& after.tolerated.len() >= n
    &&& after.tolerated.take(n) =~= before.tolerated
    &&& after.tolerated.len() + after.pending.len() <= n + before.pending.len()
    &&& after.tolerated.len() > n ==> before.pending.len() > 0 && after.tolerated[n]
        == before.pending.first()
}

/// Whether the function `reparse` puts aside what `parser` says, for all tokens
/// it is given.
pub open spec fn follows<F: Fn(&Vec<String>) -> Vec<String>>(
    reparse: F,
    parser: spec_fn(Seq<Seq<char>>) -> Seq<Seq<char>>,
) -> bool {
    forall|tokens: &Vec<String>, aside: Vec<String>|
        call_ensures(reparse, (tokens,), aside) ==> aside.deep_view() == parser(
            tokens.deep_view(),
        )
}

/// The tokens put aside by the first parse of a command line in which each
/// unrecognised token `odd[k]` is followed by the recognised stretch
/// `blocks[k]`, from the `k`-th unrecognised token on.
pub open spec fn interleaved(odd: Seq<Seq<char>>, blocks: Seq<Seq<Seq<char>>>, k: int) -> Seq<
    Seq<char>,
>
    recommends
        0 <= k,
        blocks.len() == odd.len(),
    decreases odd.len() - k,
{
    if 0 <= k < odd.len() {
        seq![odd[k]] + blocks[k] + interleaved(odd, blocks, k + 1)
    } else {
        Seq::empty()
    }
}

/// The end of a resolution: the options, the tokens that were dropped on the
/// way, and whether the caller had declared an interface version.
#[derive(Debug, PartialEq, Eq)]
pub struct ArgumentCompatibilityOutcome {
    /// The options as the last parse left them.
    pub configuration: LaunchConfiguration,
    /// The tokens that were dropped, in the order in which they stood. The
    /// caller is warned of them.
    pub tolerated: Vec<String>,
    /// Whether the caller declared an interface version.
    pub version_declared: bool,
}

/// Copies the tokens of `v`.
fn copy_tokens(v: &Vec<String>) -> (out: Vec<String>)
    ensures
        out.deep_view() == v.deep_view(),
{
    let mut out: Vec<String> = Vec::new();
    let mut i: usize = 0;
    while i < v.len()
        invariant
            i <= v.len(),
            out.len() == i,
            forall|k: int| 0 <= k < i ==> out[k]@ == v[k]@,
        decreases v.len() - i,
    {
        out.push(v[i].clone());
        i += 1;
    }
    out
}

/// Tests whether `tail` is a tail of `whole`.
fn is_tail_of(tail: &Vec<String>, whole: &Vec<String>) -> (b: bool)
    ensures
        b == is_suffix(tail.deep_view(), whole.deep_view()),
{
    if tail.len() > whole.len() {
        return false;
    }
    let offset: usize = whole.len() - tail.len();
    let ghost t = tail.deep_view();
    let ghost w = whole.deep_view();
    let mut i: usize = 0;
    while i < tail.len()
        invariant
            i <= tail.len(),
            offset + tail.len() == whole.len(),
            t == tail.deep_view(),
            w == whole.deep_view(),
            forall|k: int| 0 <= k < i ==> t[k] == w[offset + k],
        decreases tail.len() - i,
    {
        if tail[i] != whole[offset + i] {
            assert(w.skip(w.len() - t.len())[i as int] != t[i as int]);
            return false;
        }
        i += 1;
    }
    true
}

/// A resolution under way.
#[derive(Clone, Debug, PartialEq, Eq)]
pub struct ArgumentResolver {
    version_declared: bool,
    tolerated: Vec<String>,
    pending: Vec<String>,
}

impl View for ArgumentResolver {
    type V = ResolverView;

    closed spec fn view(&self) -> ResolverView {
        ResolverView {
            version_declared: self.version_declared,
            tolerated: self.tolerated.deep_view(),
            pending: self.pending.deep_view(),
        }
    }
}

impl ArgumentResolver {
    /// Begins a resolution with the declared version and the tokens that the
    /// first parse put aside.
    ///
    /// A version outside the supported range is refused, whatever the tokens.
    /// Without a version, or with the launcher's own, the first unrecognised
    /// token is refused. With any other supported version all the tokens are
    /// pending, to be tolerated round by round.
    pub fn begin(declared: Option<InterfaceVersion>, unknown: Vec<String>) -> (r: Result<
        ArgumentResolver,
        ResolutionError,
    >)
        ensures
            match r {
                Ok(resolver) => begin_of(declared.deep_view(), unknown.deep_view()) == Ok::<
                    ResolverView,
                    ResolutionErrorView,
                >(resolver@),
                Err(e) => begin_of(declared.deep_view(), unknown.deep_view()) == Err::<
                    ResolverView,
                    ResolutionErrorView,
                >(e@),
            },
    {
        match declared {
            Some(version) => match leniency(standing(Some(&version))) {
                Some(found) => ArgumentResolver::open_with(true, found, unknown),
                None => Err(ResolutionError::UnsupportedVersion(version)),
            },
            None => ArgumentResolver::open_with(false, Leniency::Strict, unknown),
        }
    }

    /// Begins a resolution once the declared version has been accepted.
    fn open_with(version_declared: bool, found: Leniency, unknown: Vec<String>) -> (r: Result<
        ArgumentResolver,
        ResolutionError,
    >)
        ensures
            match r {
                Ok(resolver) => {
                    &&& resolver@.version_declared == version_declared
                    &&& resolver@.tolerated == Seq::<Seq<char>>::empty()
                    &&& resolver@.pending == unknown.deep_view()
                    &&& (found == Leniency::Strict ==> unknown.len() == 0)
                },
                Err(e) => {
                    &&& found == Leniency::Strict
                    &&& unknown.len() > 0
                    &&& e@ == ResolutionErrorView::UnknownArgument(unknown.deep_view().first())
                },
            },
    {
        let mut unknown = unknown;
        if found == Leniency::Strict && unknown.len() > 0 {
            let token = unknown.remove(0);
            return Err(ResolutionError::UnknownArgument(token));
        }
        let resolver = ArgumentResolver {
            version_declared,
            tolerated: Vec::new(),
            pending: unknown,
        };
        Ok(resolver)
    }

    /// Starts a round: drops the first pending token, remembers it, and returns
    /// the tokens that are to be parsed again. Returns `None`, and changes
    /// nothing, when no token is pending: the resolution is over.
    pub fn strip(&mut self) -> (remainder: Option<Vec<String>>)
        ensures
            final(self)@ == strip_of(old(self)@),
            old(self)@.pending.len() == 0 ==> remainder is None,
            old(self)@.pending.len() > 0 ==> remainder is Some && remainder->0.deep_view()
                == final(self)@.pending,
    {
        if self.pending.len() == 0 {
            return None;
        }
        let ghost before = self@;
        let token = self.pending.remove(0);
        self.tolerated.push(token);
        let remainder = copy_tokens(&self.pending);
        proof {
            assert(self@.pending =~= before.pending.drop_first());
            assert(self@.tolerated =~= before.tolerated.push(before.pending.first()));
        }
        Some(remainder)
    }

    /// Ends a round: takes the tokens that the parser put aside when it saw the
    /// pending ones. Returns whether they were taken over, which they are if
    /// they are a tail of the pending tokens.
    pub fn reparsed(&mut self, unknown: Vec<String>) -> (accepted: bool)
        ensures
            accepted == is_suffix(unknown.deep_view(), old(self)@.pending),
            final(self)@ == reparsed_of(old(self)@, unknown.deep_view()),
    {
        if is_tail_of(&unknown, &self.pending) {
            self.pending = unknown;
            true
        } else {
            false
        }
    }

    /// Runs the rounds to their end, with `reparse` as the parser: it is handed
    /// the tokens that are to be parsed again and returns what it put aside.
    ///
    /// The rounds end whatever `reparse` returns, since every round drops a
    /// token: the tokens dropped before stay, the first pending token is dropped
    /// next, and no more tokens are dropped than were pending. Where `reparse`
    /// acts as some parser does, the tokens that have been dropped at the end
    /// are the ones that the rounds drop with that parser.
    pub fn run<F: Fn(&Vec<String>) -> Vec<String>>(&mut self, reparse: F)
        requires
            forall|tokens: &Vec<String>| call_requires(reparse, (tokens,)),
        ensures
            final(self)@.pending.len() == 0,
            final(self)@.version_declared == old(self)@.version_declared,
            carries_on(old(self)@, final(self)@),
            forall|parser: spec_fn(Seq<Seq<char>>) -> Seq<Seq<char>>| #[trigger]
                follows(reparse, parser) ==> final(self)@.tolerated == tolerated_with(
                    parser,
                    old(self)@,
                ),
    {
        let ghost start = self@;
        loop
            invariant
                forall|tokens: &Vec<String>| call_requires(reparse, (tokens,)),
                self@.version_declared == start.version_declared,
                carries_on(start, self@),
                self@.tolerated.len() == start.tolerated.len() ==> self@.pending == start.pending,
                forall|parser: spec_fn(Seq<Seq<char>>) -> Seq<Seq<char>>| #[trigger]
                    follows(reparse, parser) ==> tolerated_with(parser, self@) == tolerated_with(
                        parser,
                        start,
                    ),
            ensures
                self@.pending.len() == 0,
                self@.version_declared == start.version_declared,
                carries_on(start, self@),
                forall|parser: spec_fn(Seq<Seq<char>>) -> Seq<Seq<char>>| #[trigger]
                    follows(reparse, parser) ==> self@.tolerated == tolerated_with(parser, start),
            decreases self@.pending.len(),
        {
            let ghost before = self@;
            match self.strip() {
                None => {
                    break ;
                },
                Some(remainder) => {
                    let aside = reparse(&remainder);
                    self.reparsed(aside);
                    assert(self@.tolerated.take(start.tolerated.len() as int)
                        =~= before.tolerated.take(start.tolerated.len() as int));
                },
            }
        }
    }

    /// Ends the resolution with the options that the last parse gave. Returns
    /// `None` while tokens are pending.
    pub fn finish(self, configuration: LaunchConfiguration) -> (r: Option<
        ArgumentCompatibilityOutcome,
    >)
        ensures
            r is Some <==> self@.pending.len() == 0,
            r matches Some(outcome) ==> {
                &&& outcome.configuration == configuration
                &&& outcome.tolerated.deep_view() == self@.tolerated
                &&& outcome.version_declared == self@.version_declared
            },
    {
        if self.pending.len() > 0 {
            return None;
        }
        Some(
            ArgumentCompatibilityOutcome {
                configuration,
                tolerated: self.tolerated,
                version_declared: self.version_declared,
            },
        )
    }

    /// Whether the resolution is over: no token is pending.
    pub fn is_done(&self) -> (r: bool)
        ensures
            r == (self@.pending.len() == 0),
    {
        self.pending.len() == 0
    }

    /// Whether the caller declared an interface version.
    pub fn version_declared(&self) -> (r: bool)
        ensures
            r == self@.version_declared,
    {
        self.version_declared
    }

    /// The tokens dropped so far.
    pub fn tolerated(&self) -> (r: &Vec<String>)
        ensures
            r.deep_view() == self@.tolerated,
    {
        &self.tolerated
    }

    /// The tokens that are still pending.
    pub fn pending(&self) -> (r: &Vec<String>)
        ensures
            r.deep_view() == self@.pending,
    {
        &self.pending
    }
}

/// A declared version outside the supported range is refused, whatever else
/// the command line holds.
pub proof fn lemma_unsupported_version_is_refused(declared: VersionView, unknown: Seq<Seq<char>>)
    requires
        !is_supported(declared),
    ensures
        begin_of(Some(declared), unknown) == Err::<ResolverView, ResolutionErrorView>(
            ResolutionErrorView::UnsupportedVersion(declared),
        ),
{
}

/// With the launcher's own version declared, an unrecognised argument is
/// refused, not tolerated: the first one is the error.
pub proof fn lemma_own_version_is_strict(declared: VersionView, unknown: Seq<Seq<char>>)
    requires
        is_own(declared),
        unknown.len() > 0,
    ensures
        begin_of(Some(declared), unknown) == Err::<ResolverView, ResolutionErrorView>(
            ResolutionErrorView::UnknownArgument(unknown.first()),
        ),
{
}

/// With no version declared, an unrecognised argument is refused: the first one
/// is the error.
pub proof fn lemma_no_version_is_strict(unknown: Seq<Seq<char>>)
    requires
        unknown.len() > 0,
    ensures
        begin_of(None, unknown) == Err::<ResolverView, ResolutionErrorView>(
            ResolutionErrorView::UnknownArgument(unknown.first()),
        ),
{
}

/// From a state whose pending tokens are the unrecognised tokens from the
/// `k`-th on, each followed by its recognised stretch, the rounds drop exactly
/// those unrecognised tokens, in order.
proof fn lemma_rounds_drop_the_unrecognised(
    parser: spec_fn(Seq<Seq<char>>) -> Seq<Seq<char>>,
    odd: Seq<Seq<char>>,
    blocks: Seq<Seq<Seq<char>>>,
    k: int,
    s: ResolverView,
)
    requires
        0 <= k <= odd.len(),
        blocks.len() == odd.len(),
        forall|j: int|
            0 <= j < odd.len() ==> parser(blocks[j] + #[trigger] interleaved(odd, blocks, j + 1))
                == interleaved(odd, blocks, j + 1),
        s.pending == interleaved(odd, blocks, k),
    ensures
        tolerated_with(parser, s) == s.tolerated + odd.skip(k),
    decreases odd.len() - k,
{
    if k == odd.len() {
    } else {
        let rest = interleaved(odd, blocks, k + 1);
        let stripped = strip_of(s);
        assert(stripped.pending =~= blocks[k] + rest);
        let next = reparsed_of(stripped, parser(stripped.pending));
        lemma_rounds_drop_the_unrecognised(parser, odd, blocks, k + 1, next);
    }
}

/// With a supported version declared that is not the launcher's own, a command
/// line with unrecognised tokens among recognised ones is resolved, and the
/// tokens that were dropped are exactly the unrecognised ones, in the order in
/// which they stood.
///
/// The command line is given by what its first parse put aside: each
/// unrecognised token `odd[k]`, followed by the stretch `blocks[k]` that the
/// parser recognises in full before it stops at the next unrecognised token.
pub proof fn lemma_tolerates_exactly_the_unrecognised(
    declared: VersionView,
    parser: spec_fn(Seq<Seq<char>>) -> Seq<Seq<char>>,
    odd: Seq<Seq<char>>,
    blocks: Seq<Seq<Seq<char>>>,
)
    requires
        is_supported(declared),
        !is_own(declared),
        blocks.len() == odd.len(),
        forall|j: int|
            0 <= j < odd.len() ==> parser(blocks[j] + #[trigger] interleaved(odd, blocks, j + 1))
                == interleaved(odd, blocks, j + 1),
    ensures
        begin_of(Some(declared), interleaved(odd, blocks, 0)) is Ok,
        tolerated_with(parser, begin_of(Some(declared), interleaved(odd, blocks, 0))->Ok_0) == odd,
{
    let s = begin_of(Some(declared), interleaved(odd, blocks, 0))->Ok_0;
    lemma_rounds_drop_the_unrecognised(parser, odd, blocks, 0, s);
}

} // verus!
