//! The analysis pass: a walk over a statement that hands every name, data
//! type, literal value and raw token to a caller-owned accumulator, in the
//! order in which they stand in the statement, and stops at the first one
//! that the accumulator refuses.

use vstd::prelude::*;
use crate::data_type::DataType;
use crate::ident::Ident;
use crate::ident::ObjectName;
use crate::tokenizer::Token;
use crate::value::Value;

pub mod ddl;
pub mod expr;
pub mod query;
pub mod statement;

verus! {

/// What the analysis pass hands to an accumulator.
pub enum Fact {
    /// The name of a column, an alias, a variable or the like.
    Name(Ident),
    /// The name of a table or another object.
    Object(ObjectName),
    /// A data type.
    Type(DataType),
    /// A literal value.
    Literal(Value),
    /// A raw token of a dialect-specific option.
    RawToken(Token),
}

/// The reason for which an accumulator refused a fact.
#[derive(Debug, Clone, PartialEq, Eq)]
pub struct AnalyseError {
    pub reason: String,
}

/// What an analysis returns.
pub type SAResult = Result<(), AnalyseError>;

/// The result that stands for an accumulator's failure, or for its absence.
pub open spec fn outcome(failure: Option<AnalyseError>) -> SAResult {
    match failure {
        Some(e) => Err(e),
        None => Ok(()),
    }
}

/// The accumulator of an analysis: it is handed facts one by one and may
/// refuse one with a reason. What it keeps of them is its own concern.
pub trait Accumulator {
    /// Records a name.
    fn record_name(&mut self, name: &Ident) -> SAResult;

    /// Records the name of an object.
    fn record_object(&mut self, name: &ObjectName) -> SAResult;

    /// Records a data type.
    fn record_type(&mut self, data_type: &DataType) -> SAResult;

    /// Records a literal value.
    fn record_value(&mut self, value: &Value) -> SAResult;

    /// Records a raw token.
    fn record_token(&mut self, token: &Token) -> SAResult;
}

/// An accumulator during one analysis, with the record of what it has been
/// handed and of the failure that it has signalled.
pub struct Traced<A: Accumulator> {
    inner: A,
    failed: Option<AnalyseError>,
    handed: Ghost<Seq<Fact>>,
}

impl<A: Accumulator> Traced<A> {
    /// The facts that the accumulator has been handed, in order, the refused
    /// one included.
    pub closed spec fn trace(&self) -> Seq<Fact> {
        self.handed@
    }

    /// The failure that the accumulator has signalled, if any.
    pub closed spec fn failure(&self) -> Option<AnalyseError> {
        self.failed
    }

    /// The accumulator itself.
    pub closed spec fn accumulator(&self) -> A {
        self.inner
    }

    /// Takes `inner` into an analysis: nothing has been handed to it, and it
    /// has not failed.
    pub fn new(inner: A) -> (r: Self)
        ensures
            r.trace() == Seq::<Fact>::empty(),
            r.failure() is None,
            r.accumulator() == inner,
    {
        Traced { inner, failed: None, handed: Ghost(Seq::empty()) }
    }

    /// The accumulator as the analysis has left it.
    pub fn get(&self) -> (r: &A)
        ensures
            *r == self.accumulator(),
    {
        &self.inner
    }

    /// Ends the analysis and gives the accumulator back.
    pub fn into_inner(self) -> (r: A)
        ensures
            r == self.accumulator(),
    {
        self.inner
    }

    /// Whether the accumulator has signalled a failure.
    pub fn has_failed(&self) -> (r: bool)
        ensures
            r == self.failure() is Some,
    {
        self.failed.is_some()
    }

    /// What the analysis has come to so far: the failure that the
    /// accumulator has signalled, or success.
    pub fn result(&self) -> (r: SAResult)
        ensures
            r == outcome(self.failure()),
    {
        match &self.failed {
            Some(e) => Err(AnalyseError { reason: e.reason.clone() }),
            None => Ok(()),
        }
    }

    /// Keeps the failure of `r`, if it is one, and returns `r`.
    fn keep(&mut self, r: SAResult) -> (out: SAResult)
        requires
            old(self).failed is None,
        ensures
            final(self).inner == old(self).inner,
            final(self).handed == old(self).handed,
            out == outcome(final(self).failed),
            out is Ok <==> r is Ok,
            out matches Err(e) ==> r == Err::<(), AnalyseError>(e),
    {
        match r {
            Ok(_) => Ok(()),
            Err(e) => {
                let reason = e.reason.clone();
                self.failed = Some(AnalyseError { reason });
                Err(e)
            },
        }
    }

    /// Hands a name to the accumulator, unless it has failed before.
    pub fn record_name(&mut self, name: &Ident) -> (r: SAResult)
        ensures
            r == outcome(final(self).failure()),
            old(self).failure() is None ==> final(self).trace() == old(self).trace().push(
                Fact::Name(*name),
            ),
            old(self).failure() is Some ==> *final(self) == *old(self),
            final(self).trace() == old(self).trace() ==> final(self).accumulator() == old(
                self,
            ).accumulator(),
    {
        if self.failed.is_some() {
            return self.result();
        }
        proof {
            self.handed@ = self.handed@.push(Fact::Name(*name));
        }
        let r = self.inner.record_name(name);
        self.keep(r)
    }

    /// Hands the name of an object to the accumulator, unless it has failed
    /// before.
    pub fn record_object(&mut self, name: &ObjectName) -> (r: SAResult)
        ensures
            r == outcome(final(self).failure()),
            old(self).failure() is None ==> final(self).trace() == old(self).trace().push(
                Fact::Object(*name),
            ),
            old(self).failure() is Some ==> *final(self) == *old(self),
            final(self).trace() == old(self).trace() ==> final(self).accumulator() == old(
                self,
            ).accumulator(),
    {
        if self.failed.is_some() {
            return self.result();
        }
        proof {
            self.handed@ = self.handed@.push(Fact::Object(*name));
        }
        let r = self.inner.record_object(name);
        self.keep(r)
    }

    /// Hands a data type to the accumulator, unless it has failed before.
    pub fn record_type(&mut self, data_type: &DataType) -> (r: SAResult)
        ensures
            r == outcome(final(self).failure()),
            old(self).failure() is None ==> final(self).trace() == old(self).trace().push(
                Fact::Type(*data_type),
            ),
            old(self).failure() is Some ==> *final(self) == *old(self),
            final(self).trace() == old(self).trace() ==> final(self).accumulator() == old(
                self,
            ).accumulator(),
    {
        if self.failed.is_some() {
            return self.result();
        }
        proof {
            self.handed@ = self.handed@.push(Fact::Type(*data_type));
        }
        let r = self.inner.record_type(data_type);
        self.keep(r)
    }

    /// Hands a literal value to the accumulator, unless it has failed
    /// before.
    pub fn record_value(&mut self, value: &Value) -> (r: SAResult)
        ensures
            r == outcome(final(self).failure()),
            old(self).failure() is None ==> final(self).trace() == old(self).trace().push(
                Fact::Literal(*value),
            ),
            old(self).failure() is Some ==> *final(self) == *old(self),
            final(self).trace() == old(self).trace() ==> final(self).accumulator() == old(
                self,
            ).accumulator(),
    {
        if self.failed.is_some() {
            return self.result();
        }
        proof {
            self.handed@ = self.handed@.push(Fact::Literal(*value));
        }
        let r = self.inner.record_value(value);
        self.keep(r)
    }

    /// Hands a raw token to the accumulator, unless it has failed before.
    pub fn record_token(&mut self, token: &Token) -> (r: SAResult)
        ensures
            r == outcome(final(self).failure()),
            old(self).failure() is None ==> final(self).trace() == old(self).trace().push(
                Fact::RawToken(*token),
            ),
            old(self).failure() is Some ==> *final(self) == *old(self),
            final(self).trace() == old(self).trace() ==> final(self).accumulator() == old(
                self,
            ).accumulator(),
    {
        if self.failed.is_some() {
            return self.result();
        }
        proof {
            self.handed@ = self.handed@.push(Fact::RawToken(*token));
        }
        let r = self.inner.record_token(token);
        self.keep(r)
    }
}

/// How a trace grows while `facts` are offered in order: on success by all
/// of them, on failure by those up to and with the refused one, and by none
/// that stands after it.
pub open spec fn offered(before: Seq<Fact>, after: Seq<Fact>, facts: Seq<Fact>, ok: bool) -> bool {
    if ok {
        after == before + facts
    } else {
        exists|k: int| 0 < k <= facts.len() && after == before + #[trigger] facts.take(k)
    }
}

/// Offering one fact grows the trace by that fact, whether it is accepted
/// or refused.
pub proof fn lemma_offered_one(before: Seq<Fact>, fact: Fact, ok: bool)
    ensures
        offered(before, before.push(fact), seq![fact], ok),
{
    assert(before.push(fact) =~= before + seq![fact]);
    assert(seq![fact].take(1) =~= seq![fact]);
}

/// Offering nothing leaves the trace as it is.
pub proof fn lemma_offered_none(before: Seq<Fact>)
    ensures
        offered(before, before, Seq::empty(), true),
{
    assert(before =~= before + Seq::<Fact>::empty());
}

/// A trace only grows while facts are offered: what it held stays at its
/// front, and it is the same after as before only where nothing was
/// offered.
pub proof fn lemma_offered_grows(before: Seq<Fact>, after: Seq<Fact>, facts: Seq<Fact>, ok: bool)
    requires
        offered(before, after, facts, ok),
    ensures
        before.len() <= after.len(),
        after.len() == before.len() ==> after == before && ok && facts.len() == 0,
{
    if ok {
        if after.len() == before.len() {
            assert(after =~= before);
        }
    } else {
        let k = choose|k: int| 0 < k <= facts.len() && after == before + #[trigger] facts.take(k);
        assert(after.len() == before.len() + k);
    }
}

/// A walk over a node without facts cannot fail and leaves the trace as it
/// is.
pub proof fn law_nothing_offered(before: Seq<Fact>, after: Seq<Fact>, ok: bool)
    requires
        offered(before, after, Seq::empty(), ok),
    ensures
        ok,
        after == before,
{
    lemma_offered_grows(before, after, Seq::empty(), ok);
    if ok {
        assert(before + Seq::<Fact>::empty() =~= before);
    }
}

/// After `first` has been offered with success, what happens on `second`
/// is what happens on both.
pub proof fn lemma_offered_then(
    before: Seq<Fact>,
    mid: Seq<Fact>,
    after: Seq<Fact>,
    first: Seq<Fact>,
    second: Seq<Fact>,
    ok: bool,
)
    requires
        offered(before, mid, first, true),
        offered(mid, after, second, ok),
    ensures
        offered(before, after, first + second, ok),
{
    if ok {
        assert(before + first + second =~= before + (first + second));
    } else {
        let k = choose|k: int| 0 < k <= second.len() && after == mid + #[trigger] second.take(k);
        assert((first + second).take(first.len() + k) =~= first + second.take(k));
        assert(before + first + second.take(k) =~= before + (first + second.take(k)));
    }
}

/// Once a fact of `first` has been refused, nothing of `second` is offered.
pub proof fn lemma_offered_stop(
    before: Seq<Fact>,
    after: Seq<Fact>,
    first: Seq<Fact>,
    second: Seq<Fact>,
)
    requires
        offered(before, after, first, false),
    ensures
        offered(before, after, first + second, false),
{
    let k = choose|k: int| 0 < k <= first.len() && after == before + #[trigger] first.take(k);
    assert((first + second).take(k) =~= first.take(k));
}

/// A walk that has failed has handed over at least one fact, the refused
/// one, which is the last that the accumulator was handed: no fact that
/// stands after it has reached the accumulator.
pub proof fn law_fail_fast(before: Seq<Fact>, after: Seq<Fact>, facts: Seq<Fact>)
    requires
        offered(before, after, facts, false),
    ensures
        before.len() < after.len() <= before.len() + facts.len(),
        after.subrange(0, before.len() as int) == before,
        after.subrange(before.len() as int, after.len() as int) == facts.take(
            after.len() - before.len(),
        ),
        after.last() == facts[after.len() - before.len() - 1],
{
    let k = choose|k: int| 0 < k <= facts.len() && after == before + #[trigger] facts.take(k);
    assert(after.subrange(0, before.len() as int) =~= before);
    assert(after.subrange(before.len() as int, after.len() as int) =~= facts.take(k));
}

/// A node of a statement that an analysis can walk.
pub trait SQLAnalyse {
    /// The facts that the node holds, in the order of the walk.
    spec fn facts(&self) -> Seq<Fact>;

    /// Hands the node's facts to `ctx` in order. The walk stops at the
    /// first fact that `ctx` refuses, and returns that failure. Where `ctx`
    /// has failed before, nothing is handed to it, and the earlier failure
    /// is returned. An accumulator that is handed nothing stays as it is.
    fn analyse<A: Accumulator>(&self, ctx: &mut Traced<A>) -> (r: SAResult)
        ensures
            r == outcome(final(ctx).failure()),
            old(ctx).failure() is None ==> offered(
                old(ctx).trace(),
                final(ctx).trace(),
                self.facts(),
                r is Ok,
            ),
            old(ctx).failure() is Some ==> *final(ctx) == *old(ctx),
            final(ctx).trace() == old(ctx).trace() ==> final(ctx).accumulator() == old(
                ctx,
            ).accumulator(),
    ;
}

/// The facts of the nodes of `s`, node after node.
pub open spec fn facts_of_all<T: SQLAnalyse>(s: Seq<T>) -> Seq<Fact>
    decreases s.len(),
{
    if s.len() == 0 {
        Seq::empty()
    } else {
        facts_of_all(s.drop_last()) + s.last().facts()
    }
}

/// The facts of a list are those of any of its front parts followed by
/// those of the rest.
pub proof fn lemma_facts_split<T: SQLAnalyse>(s: Seq<T>, k: int)
    requires
        0 <= k <= s.len(),
    ensures
        facts_of_all(s) == facts_of_all(s.take(k)) + facts_of_all(s.skip(k)),
    decreases s.len() - k,
{
    if k == s.len() {
        assert(s.take(k) =~= s);
        assert(s.skip(k) =~= Seq::<T>::empty());
        assert(facts_of_all(s) + Seq::<Fact>::empty() =~= facts_of_all(s));
    } else {
        lemma_facts_split(s, k + 1);
        lemma_facts_last(s.skip(k));
        assert(s.skip(k).skip(1) =~= s.skip(k + 1));
        assert(s.take(k + 1).drop_last() =~= s.take(k));
        assert(facts_of_all(s.take(k)) + s[k].facts() + facts_of_all(s.skip(k + 1))
            =~= facts_of_all(s.take(k)) + (s[k].facts() + facts_of_all(s.skip(k + 1))));
    }
}

/// The facts of a list that is not empty are those of its first node
/// followed by those of the rest.
pub proof fn lemma_facts_last<T: SQLAnalyse>(s: Seq<T>)
    requires
        s.len() > 0,
    ensures
        facts_of_all(s) == s[0].facts() + facts_of_all(s.skip(1)),
    decreases s.len(),
{
    if s.len() == 1 {
        assert(s.drop_last() =~= Seq::<T>::empty());
        assert(s.skip(1) =~= Seq::<T>::empty());
        assert(facts_of_all(s.drop_last()) + s.last().facts() =~= s[0].facts() + facts_of_all(
            s.skip(1),
        ));
    } else {
        lemma_facts_last(s.drop_last());
        assert(s.drop_last().skip(1) =~= s.skip(1).drop_last());
        assert(s[0].facts() + facts_of_all(s.skip(1).drop_last()) + s.last().facts()
            =~= s[0].facts() + (facts_of_all(s.skip(1).drop_last()) + s.last().facts()));
    }
}

/// Walks the nodes of `list` in order and stops at the first failure.
pub fn analyse_all<T: SQLAnalyse, A: Accumulator>(list: &Vec<T>, ctx: &mut Traced<A>) -> (r:
    SAResult)
    ensures
        r == outcome(final(ctx).failure()),
        old(ctx).failure() is None ==> offered(
            old(ctx).trace(),
            final(ctx).trace(),
            facts_of_all(list@),
            r is Ok,
        ),
        old(ctx).failure() is Some ==> *final(ctx) == *old(ctx),
        final(ctx).trace() == old(ctx).trace() ==> final(ctx).accumulator() == old(
            ctx,
        ).accumulator(),
{
    if ctx.has_failed() {
        return ctx.result();
    }
    proof {
        lemma_offered_none(ctx.trace());
        assert(list@.take(0) =~= Seq::<T>::empty());
    }
    let mut i: usize = 0;
    while i < list.len()
        invariant
            0 <= i <= list.len(),
            old(ctx).failure() is None,
            ctx.failure() is None,
            offered(old(ctx).trace(), ctx.trace(), facts_of_all(list@.take(i as int)), true),
            ctx.trace() == old(ctx).trace() ==> ctx.accumulator() == old(ctx).accumulator(),
        decreases list.len() - i,
    {
        let ghost mid = ctx.trace();
        let r = list[i].analyse(ctx);
        proof {
            lemma_offered_grows(
                old(ctx).trace(),
                mid,
                facts_of_all(list@.take(i as int)),
                true,
            );
            lemma_offered_grows(mid, ctx.trace(), list@[i as int].facts(), r is Ok);
            assert(list@.take(i + 1).drop_last() =~= list@.take(i as int));
            lemma_offered_then(
                old(ctx).trace(),
                mid,
                ctx.trace(),
                facts_of_all(list@.take(i as int)),
                list@[i as int].facts(),
                r is Ok,
            );
        }
        if r.is_err() {
            proof {
                lemma_facts_split(list@, i + 1);
                lemma_offered_stop(
                    old(ctx).trace(),
                    ctx.trace(),
                    facts_of_all(list@.take(i + 1)),
                    facts_of_all(list@.skip(i + 1)),
                );
            }
            return r;
        }
        i = i + 1;
    }
    proof {
        assert(list@.take(list@.len() as int) =~= list@);
    }
    Ok(())
}

impl SQLAnalyse for Ident {
    /// An identifier is one fact, a name.
    open spec fn facts(&self) -> Seq<Fact> {
        seq![Fact::Name(*self)]
    }

    fn analyse<A: Accumulator>(&self, ctx: &mut Traced<A>) -> (r: SAResult) {
        proof {
            lemma_offered_one(ctx.trace(), Fact::Name(*self), true);
            lemma_offered_one(ctx.trace(), Fact::Name(*self), false);
        }
        ctx.record_name(self)
    }
}

impl SQLAnalyse for ObjectName {
    /// A dotted name is one fact, the name of an object.
    open spec fn facts(&self) -> Seq<Fact> {
        seq![Fact::Object(*self)]
    }

    fn analyse<A: Accumulator>(&self, ctx: &mut Traced<A>) -> (r: SAResult) {
        proof {
            lemma_offered_one(ctx.trace(), Fact::Object(*self), true);
            lemma_offered_one(ctx.trace(), Fact::Object(*self), false);
        }
        ctx.record_object(self)
    }
}

impl SQLAnalyse for DataType {
    /// A data type is one fact.
    open spec fn facts(&self) -> Seq<Fact> {
        seq![Fact::Type(*self)]
    }

    fn analyse<A: Accumulator>(&self, ctx: &mut Traced<A>) -> (r: SAResult) {
        proof {
            lemma_offered_one(ctx.trace(), Fact::Type(*self), true);
            lemma_offered_one(ctx.trace(), Fact::Type(*self), false);
        }
        ctx.record_type(self)
    }
}

impl SQLAnalyse for Value {
    /// A literal value is one fact.
    open spec fn facts(&self) -> Seq<Fact> {
        seq![Fact::Literal(*self)]
    }

    fn analyse<A: Accumulator>(&self, ctx: &mut Traced<A>) -> (r: SAResult) {
        proof {
            lemma_offered_one(ctx.trace(), Fact::Literal(*self), true);
            lemma_offered_one(ctx.trace(), Fact::Literal(*self), false);
        }
        ctx.record_value(self)
    }
}

impl SQLAnalyse for Token {
    /// A token is one fact.
    open spec fn facts(&self) -> Seq<Fact> {
        seq![Fact::RawToken(*self)]
    }

    fn analyse<A: Accumulator>(&self, ctx: &mut Traced<A>) -> (r: SAResult) {
        proof {
            lemma_offered_one(ctx.trace(), Fact::RawToken(*self), true);
            lemma_offered_one(ctx.trace(), Fact::RawToken(*self), false);
        }
        ctx.record_token(self)
    }
}

/// An accumulator that collects the names it is handed and refuses a
/// denied one. The parts of a dotted name count as names; types, values
/// and tokens are accepted as they come.
pub struct NameCollector {
    denied: Option<String>,
    names: Vec<String>,
}

/// The texts of the strings of `s`, in order.
pub open spec fn string_views(s: Seq<String>) -> Seq<Seq<char>> {
    Seq::new(s.len(), |i: int| s[i]@)
}

/// The texts of the identifiers of `s`, in order.
pub open spec fn ident_values(s: Seq<Ident>) -> Seq<Seq<char>> {
    Seq::new(s.len(), |i: int| s[i].value@)
}

/// The first position at which `denied` stands in `values`, or their number
/// where it stands nowhere.
pub open spec fn first_denied(values: Seq<Seq<char>>, denied: Option<Seq<char>>) -> int
    decreases values.len(),
{
    if values.len() == 0 {
        0
    } else if denied == Some(values[0]) {
        0
    } else {
        1 + first_denied(values.skip(1), denied)
    }
}

impl NameCollector {
    /// The name that the collector refuses, if any.
    pub closed spec fn denied(&self) -> Option<Seq<char>> {
        match self.denied {
            Some(d) => Some(d@),
            None => None,
        }
    }

    /// The names collected so far, in the order in which they came.
    pub closed spec fn collected(&self) -> Seq<Seq<char>> {
        string_views(self.names@)
    }

    /// A collector without names that refuses `denied`.
    pub fn new(denied: Option<String>) -> (r: Self)
        ensures
            r.denied() == match denied {
                Some(d) => Some(d@),
                None => None,
            },
            r.collected() == Seq::<Seq<char>>::empty(),
    {
        let r = NameCollector { denied, names: Vec::new() };
        assert(r.collected() =~= Seq::<Seq<char>>::empty());
        r
    }

    /// The names collected so far, in the order in which they came.
    pub fn names(&self) -> (r: &Vec<String>)
        ensures
            string_views(r@) == self.collected(),
    {
        &self.names
    }

    /// Takes one name: collects it, or refuses it where it is the denied
    /// one. The reason of a refusal is the name.
    fn take(&mut self, value: &String) -> (r: SAResult)
        ensures
            final(self).denied == old(self).denied,
            r is Ok <==> old(self).denied() != Some(value@),
            r is Ok ==> final(self).collected() == old(self).collected().push(value@),
            r matches Err(e) ==> e.reason@ == value@ && final(self).collected() == old(
                self,
            ).collected(),
    {
        let is_denied = match &self.denied {
            Some(d) => *d == *value,
            None => false,
        };
        if is_denied {
            Err(AnalyseError { reason: value.clone() })
        } else {
            self.names.push(value.clone());
            assert(self.collected() =~= old(self).collected().push(value@));
            Ok(())
        }
    }
}

impl Accumulator for NameCollector {
    /// The name is collected unless it is the denied one.
    fn record_name(&mut self, name: &Ident) -> (r: SAResult)
        ensures
            final(self).denied() == old(self).denied(),
            r is Ok <==> old(self).denied() != Some(name.value@),
            r is Ok ==> final(self).collected() == old(self).collected().push(name.value@),
            r is Err ==> final(self).collected() == old(self).collected(),
    {
        self.take(&name.value)
    }

    /// The parts of the name are collected in order, up to the first that
    /// is the denied one.
    fn record_object(&mut self, name: &ObjectName) -> (r: SAResult)
        ensures
            final(self).denied() == old(self).denied(),
            r is Ok <==> first_denied(ident_values(name.0@), old(self).denied()) == name.0@.len(),
            final(self).collected() == old(self).collected() + ident_values(name.0@).take(
                first_denied(ident_values(name.0@), old(self).denied()),
            ),
    {
        let ghost values = ident_values(name.0@);
        let ghost denied = self.denied();
        let mut i: usize = 0;
        proof {
            assert(values.skip(0) =~= values);
            assert(self.collected() =~= old(self).collected() + values.take(0));
        }
        while i < name.0.len()
            invariant
                0 <= i <= name.0.len(),
                values == ident_values(name.0@),
                denied == old(self).denied(),
                self.denied() == denied,
                first_denied(values, denied) == i + first_denied(values.skip(i as int), denied),
                self.collected() == old(self).collected() + values.take(i as int),
            decreases name.0.len() - i,
        {
            let ghost before = self.collected();
            let r = self.take(&name.0[i].value);
            proof {
                assert(values.skip(i as int)[0] == values[i as int]);
                assert(values.skip(i as int).skip(1) =~= values.skip(i + 1));
            }
            if r.is_err() {
                return r;
            }
            proof {
                assert(before.push(values[i as int]) =~= old(self).collected() + values.take(i + 1));
            }
            i = i + 1;
        }
        proof {
            assert(values.skip(values.len() as int) =~= Seq::<Seq<char>>::empty());
        }
        Ok(())
    }

    /// A data type is accepted.
    fn record_type(&mut self, data_type: &DataType) -> (r: SAResult)
        ensures
            r is Ok,
            *final(self) == *old(self),
    {
        Ok(())
    }

    /// A literal value is accepted.
    fn record_value(&mut self, value: &Value) -> (r: SAResult)
        ensures
            r is Ok,
            *final(self) == *old(self),
    {
        Ok(())
    }

    /// A token is accepted.
    fn record_token(&mut self, token: &Token) -> (r: SAResult)
        ensures
            r is Ok,
            *final(self) == *old(self),
    {
        Ok(())
    }
}

/// The leaves gathered so far, followed by `more`.
pub open spec fn gathered<T>(base: Seq<T>, more: Seq<T>) -> Seq<T> {
    base + more
}

/// Gathering `x` and then `y` is gathering `x + y`.
pub broadcast proof fn lemma_gathered_twice<T>(base: Seq<T>, x: Seq<T>, y: Seq<T>)
    ensures
        #[trigger] gathered(gathered(base, x), y) == gathered(base, x + y),
{
    assert((base + x) + y =~= base + (x + y));
}

/// Gathering nothing leaves the parts as they are.
pub broadcast proof fn lemma_gathered_nothing<T>(base: Seq<T>)
    ensures
        #[trigger] gathered(base, Seq::<T>::empty()) == base,
{
    assert(base + Seq::<T>::empty() =~= base);
}

/// The empty list is a right identity of concatenation.
pub broadcast proof fn lemma_parts_empty_right<T>(a: Seq<T>)
    ensures
        #[trigger] (a + Seq::<T>::empty()) == a,
{
    assert(a + Seq::<T>::empty() =~= a);
}

/// The empty list is a left identity of concatenation.
pub broadcast proof fn lemma_parts_empty_left<T>(a: Seq<T>)
    ensures
        #[trigger] (Seq::<T>::empty() + a) == a,
{
    assert(Seq::<T>::empty() + a =~= a);
}

/// The laws by which leaves gathered one by one are seen to be the leaves
/// of the whole.
pub broadcast group group_gather {
    lemma_gathered_twice,
    lemma_gathered_nothing,
    lemma_parts_empty_right,
    lemma_parts_empty_left,
}
/// The leaves `leaves` where `on` holds, and none otherwise.
pub open spec fn only_if<T>(on: bool, leaves: Seq<T>) -> Seq<T> {
    if on {
        leaves
    } else {
        Seq::empty()
    }
}

/// A leaf of a statement: a part that is one fact.
pub enum Leaf<'a> {
    /// A name.
    Name(&'a Ident),
    /// The name of a table or another object.
    Object(&'a ObjectName),
    /// A data type.
    Type(&'a DataType),
    /// A literal value.
    Literal(&'a Value),
    /// A raw token.
    RawToken(&'a Token),
}

impl<'a> SQLAnalyse for Leaf<'a> {
    /// The fact of a leaf is that of what it refers to.
    open spec fn facts(&self) -> Seq<Fact> {
        match *self {
            Leaf::Name(x) => x.facts(),
            Leaf::Object(x) => x.facts(),
            Leaf::Type(x) => x.facts(),
            Leaf::Literal(x) => x.facts(),
            Leaf::RawToken(x) => x.facts(),
        }
    }

    fn analyse<A: Accumulator>(&self, ctx: &mut Traced<A>) -> (r: SAResult) {
        match self {
            Leaf::Name(x) => x.analyse(ctx),
            Leaf::Object(x) => x.analyse(ctx),
            Leaf::Type(x) => x.analyse(ctx),
            Leaf::Literal(x) => x.analyse(ctx),
            Leaf::RawToken(x) => x.analyse(ctx),
        }
    }
}

/// The fact that a leaf is.
pub open spec fn leaf_fact(leaf: Leaf) -> Fact {
    match leaf {
        Leaf::Name(x) => Fact::Name(*x),
        Leaf::Object(x) => Fact::Object(*x),
        Leaf::Type(x) => Fact::Type(*x),
        Leaf::Literal(x) => Fact::Literal(*x),
        Leaf::RawToken(x) => Fact::RawToken(*x),
    }
}

/// The facts of a list of leaves are the leaves' own facts, one for each
/// leaf and in the same order.
pub proof fn law_one_fact_per_leaf(leaves: Seq<Leaf>)
    ensures
        facts_of_all(leaves).len() == leaves.len(),
        forall|i: int| 0 <= i < leaves.len() ==> facts_of_all(leaves)[i] == leaf_fact(#[trigger] leaves[i]),
    decreases leaves.len(),
{
    if leaves.len() > 0 {
        law_one_fact_per_leaf(leaves.drop_last());
        let front = facts_of_all(leaves.drop_last());
        assert(leaves.last().facts() == seq![leaf_fact(leaves.last())]);
        assert forall|i: int| 0 <= i < leaves.len() implies facts_of_all(leaves)[i] == leaf_fact(
            #[trigger] leaves[i],
        ) by {
            if i < leaves.len() - 1 {
                assert(leaves.drop_last()[i] == leaves[i]);
                assert((front + leaves.last().facts())[i] == front[i]);
            } else {
                assert((front + leaves.last().facts())[i] == leaves.last().facts()[0]);
            }
        }
    }
}

/// Adds one leaf to the gathered ones.
pub fn gather<'a>(v: &mut Vec<Leaf<'a>>, leaf: Leaf<'a>)
    ensures
        final(v)@ == gathered(old(v)@, seq![leaf]),
{
    v.push(leaf);
    assert(v@ =~= old(v)@ + seq![leaf]);
}

} // verus!
