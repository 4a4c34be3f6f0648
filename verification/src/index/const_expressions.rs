//! An arena-backed registry for constant expressions.
//!
//! Constants may be declared in any order and reference each other, so every
//! constant expression is registered here once and referenced from the rest
//! of the syntax tree through a stable handle.  Analysis passes transition an
//! entry in place — to resolved on success, to unresolvable with a reason on
//! failure — without invalidating the handle.  The store is a generational
//! arena: a handle pairs a slot with a generation tag, so a handle to a
//! removed entry never aliases a later insertion into the same slot.
//!
//! The arena is modelled by the map [`arena_entries`] from live handles to
//! stored slots and by the set [`arena_retired`] of handles whose entries
//! were removed; a handle returned by an insertion lies in neither.

use vstd::prelude::*;

use crate::ast::AstStatement;

verus! {

/// A stable handle for one registered constant expression.
pub type ConstId = generational_arena::Index;

#[verifier::external_type_specification]
#[verifier::external_body]
#[verifier::reject_recursive_types(T)]
pub struct ExArena<T>(generational_arena::Arena<T>);

#[verifier::external_type_specification]
#[verifier::external_body]
pub struct ExIndex(generational_arena::Index);

/// The live entries of the arena: every handle that currently denotes a
/// stored slot, mapped to that slot.
pub uninterp spec fn arena_entries(a: generational_arena::Arena<ConstWrapper>) -> Map<
    ConstId,
    ConstWrapper,
>;

/// The handles whose entries were removed from the arena.  The arena bumps
/// its generation counter on every removal, so no later insertion ever hands
/// such a handle out again.
pub uninterp spec fn arena_retired(a: generational_arena::Arena<ConstWrapper>) -> Set<ConstId>;

/// The arena type that backs the registry.
pub type ArenaStore = generational_arena::Arena<ConstWrapper>;

/// The entry map of an arena that holds nothing.
pub open spec fn empty_entries() -> Map<ConstId, ConstWrapper> {
    Map::empty()
}

/// Relies on generational_arena::Arena::new: a fresh arena holds nothing.
#[verifier::external_body]
fn arena_new() -> (r: ArenaStore)
    ensures
        arena_entries(r) == empty_entries(),
        arena_retired(r) == Set::<ConstId>::empty(),
{
    generational_arena::Arena::new()
}

/// Relies on generational_arena::Arena::insert: the value is stored under a
/// fresh slot-and-generation handle.  A handle is stamped with the arena's
/// generation counter, which every removal increments before the removed
/// slot can be reused, so the returned handle matches neither a live nor a
/// retired one.
#[verifier::external_body]
fn arena_insert(a: &mut generational_arena::Arena<ConstWrapper>, w: ConstWrapper) -> (r: ConstId)
    ensures
        !arena_entries(*old(a)).dom().contains(r),
        !arena_retired(*old(a)).contains(r),
        arena_entries(*final(a)) == arena_entries(*old(a)).insert(r, w),
        arena_retired(*final(a)) == arena_retired(*old(a)),
{
    a.insert(w)
}

/// Relies on generational_arena::Arena::get: it returns the entry stored
/// under the handle, or nothing when the handle's slot and generation match
/// no live entry.
#[verifier::external_body]
fn arena_get<'a>(a: &'a generational_arena::Arena<ConstWrapper>, id: &ConstId) -> (r: Option<
    &'a ConstWrapper,
>)
    ensures
        match r {
            Some(w) => arena_entries(*a).dom().contains(*id) && *w == arena_entries(*a)[*id],
            None => !arena_entries(*a).dom().contains(*id),
        },
{
    a.get(*id)
}

/// Relies on generational_arena::Arena::get_mut: it finds the slot of a live
/// handle, and of no other; writing through the returned reference replaces
/// that slot's value and leaves every other slot as it was.
#[verifier::external_body]
fn arena_replace(
    a: &mut generational_arena::Arena<ConstWrapper>,
    id: &ConstId,
    w: ConstWrapper,
) -> (r: bool)
    ensures
        r == arena_entries(*old(a)).dom().contains(*id),
        r ==> arena_entries(*final(a)) == arena_entries(*old(a)).insert(*id, w),
        !r ==> arena_entries(*final(a)) == arena_entries(*old(a)),
        arena_retired(*final(a)) == arena_retired(*old(a)),
{
    match a.get_mut(*id) {
        Some(slot) => {
            *slot = w;
            true
        },
        None => false,
    }
}

/// Relies on generational_arena::Arena::remove: it takes the entry of a live
/// handle out of the arena and returns it; the handle matches nothing from
/// then on.  A miss changes nothing.
#[verifier::external_body]
fn arena_remove(a: &mut generational_arena::Arena<ConstWrapper>, id: &ConstId) -> (r: Option<
    ConstWrapper,
>)
    ensures
        match r {
            Some(w) => {
                &&& arena_entries(*old(a)).dom().contains(*id)
                &&& w == arena_entries(*old(a))[*id]
                &&& arena_entries(*final(a)) == arena_entries(*old(a)).remove(*id)
                &&& arena_retired(*final(a)) == arena_retired(*old(a)).insert(*id)
            },
            None => {
                &&& !arena_entries(*old(a)).dom().contains(*id)
                &&& arena_entries(*final(a)) == arena_entries(*old(a))
                &&& arena_retired(*final(a)) == arena_retired(*old(a))
            },
        },
{
    a.remove(*id)
}

/// Relies on generational_arena::Arena::iter: it visits every live entry
/// exactly once, in slot order, yielding the entry's handle and value.
#[verifier::external_body]
fn arena_collect(a: &generational_arena::Arena<ConstWrapper>) -> (r: Vec<(ConstId, ConstWrapper)>)
    ensures
        forall|k: int|
            0 <= k < r@.len() ==> arena_entries(*a).dom().contains(#[trigger] r@[k].0)
                && arena_entries(*a)[r@[k].0] == r@[k].1,
        forall|j: int, k: int| 0 <= j < k < r@.len() ==> r@[j].0 != r@[k].0,
        forall|i: ConstId|
            arena_entries(*a).dom().contains(i) ==> exists|k: int|
                0 <= k < r@.len() && #[trigger] r@[k].0 == i,
{
    a.iter().map(|p: (generational_arena::Index, &ConstWrapper)| (p.0, p.1.clone())).collect()
}

/// Relies on the derived Clone of generational_arena::Index, a plain copy of
/// its slot and generation fields.
pub assume_specification[ <generational_arena::Index as Clone>::clone ](
    i: &generational_arena::Index,
) -> (r: generational_arena::Index)
    ensures
        r == *i,
;

/// A failure reported by a registry operation.
///
/// The registry never aborts: every failure is returned to the immediate
/// caller.  A handle miss is reported distinctly from a shape mismatch, so
/// callers can tell "nothing there" apart from "something there but the
/// wrong kind".
#[derive(Clone, Copy, PartialEq, Eq, Structural, Debug)]
pub enum ConstError {
    /// The handle was never issued, or its entry was removed.
    HandleNotFound,
    /// The current node does not have the shape the accessor requires.
    ShapeMismatch,
}

impl ConstError {
    /// A diagnostic text for this failure.
    pub fn message(&self) -> (r: &'static str)
        ensures
            *self == ConstError::HandleNotFound ==> r@ == "cannot find constant expression"@,
            *self == ConstError::ShapeMismatch ==> r@ == "not an integer literal"@,
    {
        match self {
            ConstError::HandleNotFound => "cannot find constant expression",
            ConstError::ShapeMismatch => "not an integer literal",
        }
    }
}

/// The resolution state of a registered constant expression.
///
/// Each entry starts out unresolved; analysis passes replace the state in
/// place once evaluation succeeds or is found to be impossible.  Whatever
/// the state, a current node is always retrievable.
#[derive(Debug)]
pub enum ConstExpression {
    Unresolved(AstStatement),
    Resolved(AstStatement),
    Unresolvable { statement: AstStatement, reason: String },
}

impl ConstExpression {
    /// The node embedded in whichever state is active.
    pub open spec fn spec_statement(self) -> AstStatement {
        match self {
            ConstExpression::Unresolved(statement) => statement,
            ConstExpression::Resolved(statement) => statement,
            ConstExpression::Unresolvable { statement, .. } => statement,
        }
    }

    pub fn get_statement(&self) -> (r: &AstStatement)
        ensures
            *r == self.spec_statement(),
    {
        match self {
            ConstExpression::Unresolved(statement) => statement,
            ConstExpression::Resolved(statement) => statement,
            ConstExpression::Unresolvable { statement, .. } => statement,
        }
    }
}

impl Clone for ConstExpression {
    fn clone(&self) -> (r: Self)
        ensures
            r == *self,
    {
        match self {
            ConstExpression::Unresolved(statement) => ConstExpression::Unresolved(
                statement.clone(),
            ),
            ConstExpression::Resolved(statement) => ConstExpression::Resolved(statement.clone()),
            ConstExpression::Unresolvable { statement, reason } => ConstExpression::Unresolvable {
                statement: statement.clone(),
                reason: reason.clone(),
            },
        }
    }
}

/// One slot of the registry: a resolution state together with the name of
/// the type the expression must ultimately conform to.  The type name is
/// fixed when the slot is created; no registry operation changes it.
#[derive(Debug)]
pub struct ConstWrapper {
    /// The constant expression in its current resolution state.
    pub expr: ConstExpression,
    /// The name of the data type this expression should resolve to.
    pub target_type_name: String,
}

impl ConstWrapper {
    /// The current node of this slot, whatever its resolution state.
    pub open spec fn spec_statement(self) -> AstStatement {
        self.expr.spec_statement()
    }

    pub fn get_statement(&self) -> (r: &AstStatement)
        ensures
            *r == self.spec_statement(),
    {
        self.expr.get_statement()
    }
}

impl Clone for ConstWrapper {
    fn clone(&self) -> (r: Self)
        ensures
            r == *self,
    {
        ConstWrapper { expr: self.expr.clone(), target_type_name: self.target_type_name.clone() }
    }
}

/// The registry of constant expressions of one compilation unit.
pub struct ConstExpressions {
    expressions: generational_arena::Arena<ConstWrapper>,
}

impl ConstExpressions {
    /// The live entries, keyed by their handles.
    pub closed spec fn entries(self) -> Map<ConstId, ConstWrapper> {
        arena_entries(self.expressions)
    }

    /// The handles whose entries were removed; none of them is ever reissued.
    pub closed spec fn retired(self) -> Set<ConstId> {
        arena_retired(self.expressions)
    }

    /// A registry holds finitely many entries, and no live handle is a
    /// retired one: removal bumps the arena's generation, so a removed
    /// handle can never denote a live entry again.
    pub open spec fn wf(self) -> bool {
        self.entries().dom().finite() && self.entries().dom().disjoint(self.retired())
    }

    /// Whether the handle denotes a live entry.
    pub open spec fn contains(self, id: ConstId) -> bool {
        self.entries().dom().contains(id)
    }

    pub fn new() -> (r: ConstExpressions)
        ensures
            r.wf(),
            r.entries() == Map::<ConstId, ConstWrapper>::empty(),
            r.retired() == Set::<ConstId>::empty(),
    {
        ConstExpressions { expressions: arena_new() }
    }

    /// Registers a constant expression under a fresh handle; the entry starts
    /// out unresolved and carries the given target type name.
    pub fn add_expression(&mut self, statement: AstStatement, target_type_name: String) -> (r:
        ConstId)
        requires
            old(self).wf(),
        ensures
            final(self).wf(),
            !old(self).contains(r),
            !old(self).retired().contains(r),
            final(self).entries() == old(self).entries().insert(
                r,
                (ConstWrapper {
                    expr: ConstExpression::Unresolved(statement),
                    target_type_name: target_type_name,
                }),
            ),
            final(self).retired() == old(self).retired(),
            final(self).entries().dom().len() == old(self).entries().dom().len() + 1,
    {
        let w = ConstWrapper { expr: ConstExpression::Unresolved(statement), target_type_name };
        arena_insert(&mut self.expressions, w)
    }

    /// The current node stored under the handle, whatever its resolution
    /// state; absent when the handle was never issued or its entry was
    /// removed.
    pub fn find_expression(&self, id: &ConstId) -> (r: Option<&AstStatement>)
        ensures
            match r {
                Some(s) => self.contains(*id) && *s == self.entries()[*id].spec_statement(),
                None => !self.contains(*id),
            },
    {
        match arena_get(&self.expressions, id) {
            Some(w) => Some(w.get_statement()),
            None => None,
        }
    }

    /// The target type name fixed when the entry was registered.
    pub fn find_expression_target_type(&self, id: &ConstId) -> (r: Option<&str>)
        ensures
            match r {
                Some(s) => self.contains(*id) && s@ == self.entries()[*id].target_type_name@,
                None => !self.contains(*id),
            },
    {
        match arena_get(&self.expressions, id) {
            Some(w) => Some(w.target_type_name.as_str()),
            None => None,
        }
    }

    /// Like [`Self::find_expression`], but returns the whole resolution
    /// state, so the caller can see whether the expression was resolved yet.
    pub fn find_const_expression(&self, id: &ConstId) -> (r: Option<&ConstExpression>)
        ensures
            match r {
                Some(e) => self.contains(*id) && *e == self.entries()[*id].expr,
                None => !self.contains(*id),
            },
    {
        match arena_get(&self.expressions, id) {
            Some(w) => Some(&w.expr),
            None => None,
        }
    }

    /// Takes the entry out of the registry, handing its current node and
    /// target type name to the caller.  The handle is permanently invalid
    /// afterwards: it joins the retired set and is never reissued.
    pub fn remove(&mut self, id: &ConstId) -> (r: Option<(AstStatement, String)>)
        requires
            old(self).wf(),
        ensures
            final(self).wf(),
            match r {
                Some(p) => {
                    &&& old(self).contains(*id)
                    &&& p.0 == old(self).entries()[*id].spec_statement()
                    &&& p.1 == old(self).entries()[*id].target_type_name
                    &&& final(self).entries() == old(self).entries().remove(*id)
                    &&& final(self).retired() == old(self).retired().insert(*id)
                    &&& !final(self).contains(*id)
                    &&& final(self).entries().dom().len() + 1 == old(self).entries().dom().len()
                },
                None => {
                    &&& !old(self).contains(*id)
                    &&& final(self).entries() == old(self).entries()
                    &&& final(self).retired() == old(self).retired()
                },
            },
    {
        match arena_remove(&mut self.expressions, id) {
            Some(w) => {
                let ConstWrapper { expr, target_type_name } = w;
                match expr {
                    ConstExpression::Unresolved(s) => Some((s, target_type_name)),
                    ConstExpression::Resolved(s) => Some((s, target_type_name)),
                    ConstExpression::Unresolvable { statement: s, .. } => Some(
                        (s, target_type_name),
                    ),
                }
            },
            None => None,
        }
    }

    /// Replaces the entry's state with resolved, storing the new node
    /// wholesale; the target type name stays as it was.  Re-resolving an
    /// already resolved or unresolvable entry is deliberately permitted, so
    /// fixpoint passes may refine an earlier outcome.  Fails exactly when
    /// the handle denotes no live entry, and changes nothing then.
    pub fn mark_resolved(&mut self, id: &ConstId, new_statement: AstStatement) -> (r: Result<
        (),
        ConstError,
    >)
        requires
            old(self).wf(),
        ensures
            final(self).wf(),
            final(self).retired() == old(self).retired(),
            old(self).contains(*id) ==> {
                &&& r is Ok
                &&& final(self).entries() == old(self).entries().insert(
                    *id,
                    (ConstWrapper {
                        expr: ConstExpression::Resolved(new_statement),
                        target_type_name: old(self).entries()[*id].target_type_name,
                    }),
                )
            },
            !old(self).contains(*id) ==> {
                &&& r is Err
                &&& r->Err_0 == ConstError::HandleNotFound
                &&& final(self).entries() == old(self).entries()
            },
    {
        let target_type_name = match arena_get(&self.expressions, id) {
            Some(w) => w.target_type_name.clone(),
            None => {
                return Err(ConstError::HandleNotFound);
            },
        };
        let w = ConstWrapper { expr: ConstExpression::Resolved(new_statement), target_type_name };
        arena_replace(&mut self.expressions, id, w);
        Ok(())
    }

    /// Replaces the entry's state with unresolvable, keeping the node as it
    /// stood immediately before the call and attaching the reason, so later
    /// readers still see the best-effort expression.  Fails exactly when the
    /// handle denotes no live entry, and changes nothing then.
    pub fn mark_unresolvable(&mut self, id: &ConstId, reason: &str) -> (r: Result<(), ConstError>)
        requires
            old(self).wf(),
        ensures
            final(self).wf(),
            final(self).retired() == old(self).retired(),
            old(self).contains(*id) ==> {
                &&& r is Ok
                &&& final(self).entries().dom() == old(self).entries().dom()
                &&& final(self).entries()[*id].expr matches ConstExpression::Unresolvable {
                    statement,
                    reason: stored,
                } && statement == old(self).entries()[*id].spec_statement() && stored@ == reason@
                &&& final(self).entries()[*id].target_type_name
                    == old(self).entries()[*id].target_type_name
                &&& forall|j: ConstId|
                    j != *id && old(self).contains(j) ==> final(self).entries()[j] == old(
                        self,
                    ).entries()[j]
            },
            !old(self).contains(*id) ==> {
                &&& r is Err
                &&& r->Err_0 == ConstError::HandleNotFound
                &&& final(self).entries() == old(self).entries()
            },
    {
        let (statement, target_type_name) = match arena_get(&self.expressions, id) {
            Some(w) => (w.get_statement().clone(), w.target_type_name.clone()),
            None => {
                return Err(ConstError::HandleNotFound);
            },
        };
        let w = ConstWrapper {
            expr: ConstExpression::Unresolvable { statement, reason: reason.to_owned() },
            target_type_name,
        };
        arena_replace(&mut self.expressions, id, w);
        Ok(())
    }

    /// Registers the given constant expression and returns the handle to
    /// reference it; same as [`Self::add_expression`].
    pub fn add_constant_expression(&mut self, expr: AstStatement, target_type: String) -> (r:
        ConstId)
        requires
            old(self).wf(),
        ensures
            final(self).wf(),
            !old(self).contains(r),
            !old(self).retired().contains(r),
            final(self).entries() == old(self).entries().insert(
                r,
                (ConstWrapper {
                    expr: ConstExpression::Unresolved(expr),
                    target_type_name: target_type,
                }),
            ),
            final(self).retired() == old(self).retired(),
            final(self).entries().dom().len() == old(self).entries().dom().len() + 1,
    {
        self.add_expression(expr, target_type)
    }

    /// Registers the constant expression if there is one, otherwise does
    /// nothing.  A shortcut for an optional initializer; absence of input is
    /// forwarded as absence of output.
    pub fn maybe_add_constant_expression(
        &mut self,
        expr: Option<AstStatement>,
        target_type_name: &str,
    ) -> (r: Option<ConstId>)
        requires
            old(self).wf(),
        ensures
            final(self).wf(),
            final(self).retired() == old(self).retired(),
            expr is None ==> r is None && final(self).entries() == old(self).entries(),
            expr matches Some(statement) ==> (r matches Some(h) && {
                &&& !old(self).contains(h)
                &&& !old(self).retired().contains(h)
                &&& final(self).contains(h)
                &&& final(self).entries()[h].expr == ConstExpression::Unresolved(statement)
                &&& final(self).entries()[h].target_type_name@ == target_type_name@
                &&& final(self).entries().dom() == old(self).entries().dom().insert(h)
                &&& forall|j: ConstId|
                    j != h && old(self).contains(j) ==> final(self).entries()[j] == old(
                        self,
                    ).entries()[j]
            }),
    {
        match expr {
            Some(statement) => Some(
                self.add_constant_expression(statement, target_type_name.to_owned()),
            ),
            None => None,
        }
    }

    /// Looks the handle up if there is one, otherwise reports absence.  A
    /// shortcut for an optional handle; absence of input is forwarded as
    /// absence of output.
    pub fn maybe_get_constant_statement(&self, id: &Option<ConstId>) -> (r: Option<&AstStatement>)
        ensures
            match *id {
                Some(i) => match r {
                    Some(s) => self.contains(i) && *s == self.entries()[i].spec_statement(),
                    None => !self.contains(i),
                },
                None => r is None,
            },
    {
        match id {
            Some(i) => self.get_constant_statement(i),
            None => None,
        }
    }

    /// The expression associated with the given handle; same as
    /// [`Self::find_expression`].
    pub fn get_constant_statement(&self, id: &ConstId) -> (r: Option<&AstStatement>)
        ensures
            match r {
                Some(s) => self.contains(*id) && *s == self.entries()[*id].spec_statement(),
                None => !self.contains(*id),
            },
    {
        self.find_expression(id)
    }

    /// The embedded integer value of the entry's current node.  The check is
    /// purely structural: it asks whether the current node is an integer
    /// literal, and does not consult the resolution state, so an unresolved
    /// literal-shaped node extracts just as a resolved one does.
    pub fn get_constant_int_statement_value(&self, id: &ConstId) -> (r: Result<i128, ConstError>)
        ensures
            match r {
                Ok(v) => self.contains(*id) && self.entries()[*id].spec_statement()
                    == (AstStatement::LiteralInteger { value: v }),
                Err(ConstError::HandleNotFound) => !self.contains(*id),
                Err(ConstError::ShapeMismatch) => self.contains(*id) && !(self.entries()[
                    *id
                ].spec_statement() is LiteralInteger),
            },
    {
        match self.get_constant_statement(id) {
            Some(statement) => match statement {
                AstStatement::LiteralInteger { value } => Ok(*value),
                _ => Err(ConstError::ShapeMismatch),
            },
            None => Err(ConstError::HandleNotFound),
        }
    }

    /// A restartable walk over all live entries, one per live slot, pairing
    /// each handle with its current node.  The order is the storage order of
    /// the arena, which after removals need not equal insertion order.
    pub fn into_iter(&self) -> (it: IntoStatementIter)
        ensures
            it.wf(),
            it.cursor() == 0,
            forall|k: int|
                0 <= k < it.items().len() ==> self.contains(#[trigger] it.items()[k].0)
                    && it.items()[k].1 == self.entries()[it.items()[k].0].spec_statement(),
            forall|j: int, k: int|
                0 <= j < k < it.items().len() ==> it.items()[j].0 != it.items()[k].0,
            forall|i: ConstId|
                self.contains(i) ==> exists|k: int|
                    0 <= k < it.items().len() && #[trigger] it.items()[k].0 == i,
            it.items().len() == self.entries().dom().len(),
            self.wf() ==> forall|k: int|
                0 <= k < it.items().len() ==> !self.retired().contains(
                    (#[trigger] it.items()[k]).0,
                ),
    {
        let pairs = arena_collect(&self.expressions);
        let mut entries: Vec<(ConstId, AstStatement)> = Vec::new();
        let mut i: usize = 0;
        while i < pairs.len()
            invariant
                i <= pairs@.len(),
                entries@.len() == i as int,
                forall|k: int|
                    0 <= k < i as int ==> (#[trigger] entries@[k]).0 == pairs@[k].0
                        && entries@[k].1 == pairs@[k].1.spec_statement(),
            decreases pairs@.len() - i,
        {
            let p = &pairs[i];
            let id = p.0.clone();
            let statement = p.1.get_statement().clone();
            entries.push((id, statement));
            i = i + 1;
        }
        proof {
            self.lemma_collected_count(pairs@, entries@);
        }
        IntoStatementIter { entries, pos: 0 }
    }

    /// A walk over as many distinct live handles as there are live entries
    /// covers the whole entry map.
    proof fn lemma_collected_count(
        self,
        pairs: Seq<(ConstId, ConstWrapper)>,
        entries: Seq<(ConstId, AstStatement)>,
    )
        requires
            entries.len() == pairs.len(),
            forall|k: int| 0 <= k < pairs.len() ==> (#[trigger] entries[k]).0 == pairs[k].0,
            forall|k: int| 0 <= k < pairs.len() ==> self.contains(#[trigger] pairs[k].0),
            forall|j: int, k: int| 0 <= j < k < pairs.len() ==> pairs[j].0 != pairs[k].0,
            forall|i: ConstId|
                self.contains(i) ==> exists|k: int|
                    0 <= k < pairs.len() && #[trigger] pairs[k].0 == i,
        ensures
            entries.len() == self.entries().dom().len(),
            forall|i: ConstId|
                self.contains(i) ==> exists|k: int|
                    0 <= k < entries.len() && (#[trigger] entries[k]).0 == i,
    {
        let ids = Seq::new(pairs.len(), |k: int| pairs[k].0);
        assert forall|j: int, k: int|
            0 <= j < ids.len() && 0 <= k < ids.len() && j != k implies ids[j] != ids[k] by {
            if j < k {
                assert(pairs[j].0 != pairs[k].0);
            } else {
                assert(pairs[k].0 != pairs[j].0);
            }
        }
        assert(ids.no_duplicates());
        assert forall|i: ConstId| self.contains(i) implies exists|k: int|
            0 <= k < entries.len() && (#[trigger] entries[k]).0 == i by {
            let k = choose|k: int| 0 <= k < pairs.len() && #[trigger] pairs[k].0 == i;
            assert(0 <= k < entries.len() && entries[k].0 == i);
        }
        assert forall|i: ConstId| self.entries().dom().contains(i) implies ids.contains(i) by {
            assert(self.contains(i));
            let k = choose|k: int| 0 <= k < pairs.len() && #[trigger] pairs[k].0 == i;
            assert(0 <= k < ids.len());
            assert(ids[k] == pairs[k].0);
            assert(ids[k] == i);
        }
        assert forall|i: ConstId| ids.contains(i) implies self.entries().dom().contains(i) by {
            let k = choose|k: int| 0 <= k < ids.len() && ids[k] == i;
            assert(ids[k] == pairs[k].0);
            assert(pairs[k].0 == i);
            assert(self.contains(i));
        }
        assert(ids.to_set() =~= self.entries().dom());
        ids.unique_seq_to_set();
    }
}

/// A restartable, finite walk over the registry's live entries, produced by
/// [`ConstExpressions::into_iter`].
pub struct IntoStatementIter {
    entries: Vec<(ConstId, AstStatement)>,
    pos: usize,
}

impl IntoStatementIter {
    /// All pairs this walk yields, first to last.
    pub closed spec fn items(self) -> Seq<(ConstId, AstStatement)> {
        self.entries@
    }

    /// How many pairs were already yielded.
    pub closed spec fn cursor(self) -> int {
        self.pos as int
    }

    pub open spec fn wf(self) -> bool {
        0 <= self.cursor() <= self.items().len()
    }

    /// The next handle-and-node pair, or nothing once the walk is done.
    pub fn next(&mut self) -> (r: Option<(ConstId, AstStatement)>)
        requires
            old(self).wf(),
        ensures
            final(self).wf(),
            final(self).items() == old(self).items(),
            match r {
                Some(p) => {
                    &&& old(self).cursor() < old(self).items().len()
                    &&& p == old(self).items()[old(self).cursor()]
                    &&& final(self).cursor() == old(self).cursor() + 1
                },
                None => {
                    &&& old(self).cursor() == old(self).items().len()
                    &&& final(self).cursor() == old(self).cursor()
                },
            },
    {
        if self.pos < self.entries.len() {
            let p = &self.entries[self.pos];
            let id = p.0.clone();
            let statement = p.1.clone();
            self.pos = self.pos + 1;
            Some((id, statement))
        } else {
            None
        }
    }
}

/// A fresh insertion is immediately observable: the returned handle denotes
/// a live entry whose current node is the inserted node, whose state is
/// unresolved, and whose target type name is exactly the text supplied.
/// The hypothesis is what [`ConstExpressions::add_expression`] ensures of
/// the registry it grew.
pub proof fn lemma_insert_immediately_observable(
    before: ConstExpressions,
    after: ConstExpressions,
    handle: ConstId,
    statement: AstStatement,
    target_type_name: String,
)
    requires
        after.entries() == before.entries().insert(
            handle,
            (ConstWrapper {
                expr: ConstExpression::Unresolved(statement),
                target_type_name: target_type_name,
            }),
        ),
    ensures
        after.contains(handle),
        after.entries()[handle].spec_statement() == statement,
        after.entries()[handle].expr == ConstExpression::Unresolved(statement),
        after.entries()[handle].target_type_name == target_type_name,
{
}

/// A resolution is immediately observable: after the entry's state was
/// replaced with resolved, the handle yields the new node — not the one it
/// held before — and the full state reads resolved with that node.  The
/// hypothesis is what [`ConstExpressions::mark_resolved`] ensures of a hit.
pub proof fn lemma_mark_resolved_observable(
    before: ConstExpressions,
    after: ConstExpressions,
    handle: ConstId,
    new_statement: AstStatement,
    target_type_name: String,
)
    requires
        after.entries() == before.entries().insert(
            handle,
            (ConstWrapper {
                expr: ConstExpression::Resolved(new_statement),
                target_type_name: target_type_name,
            }),
        ),
    ensures
        after.contains(handle),
        after.entries()[handle].expr == ConstExpression::Resolved(new_statement),
        after.entries()[handle].spec_statement() == new_statement,
{
}

/// A removed handle is gone for good: after a removal, the handle denotes
/// no entry; an insertion that follows returns a distinct handle, even if
/// the underlying slot is reused; and the removed handle still denotes no
/// entry afterwards.  The hypotheses are exactly what
/// [`ConstExpressions::remove`] ensures of a hit and what
/// [`ConstExpressions::add_expression`] ensures of the registry it grew.
pub proof fn lemma_removed_handle_stays_absent(
    before: ConstExpressions,
    after_remove: ConstExpressions,
    after_insert: ConstExpressions,
    removed: ConstId,
    issued: ConstId,
    w: ConstWrapper,
)
    requires
        after_remove.entries() == before.entries().remove(removed),
        after_remove.retired() == before.retired().insert(removed),
        !after_remove.retired().contains(issued),
        after_insert.entries() == after_remove.entries().insert(issued, w),
    ensures
        issued != removed,
        !after_remove.contains(removed),
        !after_insert.contains(removed),
{
    assert(after_remove.retired().contains(removed));
}

} // verus!
