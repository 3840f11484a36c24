//! Circuit registry.
//!
//! An immutable table, populated once at startup, associating each
//! compiled-circuit identifier with exactly one witness routine.
//! Identifiers are unique; duplicates are a configuration error
//! rejected at registration time, not at proof time.  Lookups are
//! read-only and the table is never changed afterwards.

use vstd::prelude::*;

use crate::error::RegistryError;
use crate::witness::WitnessKind;

verus! {

/// One registered circuit: the name of its compiled key material and
/// the witness routine that evaluates it.
#[derive(Clone, Debug)]
pub struct CircuitEntry {
    pub identifier: String,
    pub kind: WitnessKind,
}

/// Mathematical model of a [`CircuitEntry`].
pub struct EntryModel {
    pub id: Seq<char>,
    pub kind: WitnessKind,
}

impl View for CircuitEntry {
    type V = EntryModel;

    open spec fn view(&self) -> EntryModel {
        EntryModel { id: self.identifier@, kind: self.kind }
    }
}

/// The registry table, in registration order.
#[derive(Debug)]
pub struct CircuitRegistry {
    entries: Vec<CircuitEntry>,
}

impl View for CircuitRegistry {
    type V = Seq<EntryModel>;

    closed spec fn view(&self) -> Seq<EntryModel> {
        self.entries@.map_values(|e: CircuitEntry| e@)
    }
}

/// Whether some entry carries the identifier `id`.
pub open spec fn reg_contains(reg: Seq<EntryModel>, id: Seq<char>) -> bool {
    exists|i: int| 0 <= i < reg.len() && reg[i].id == id
}

/// The witness routine registered under `id`: the first entry with
/// that identifier, which under uniqueness is the only one.
pub open spec fn reg_lookup(reg: Seq<EntryModel>, id: Seq<char>) -> Option<WitnessKind>
    decreases reg.len(),
{
    if reg.len() == 0 {
        None
    } else if reg[0].id == id {
        Some(reg[0].kind)
    } else {
        reg_lookup(reg.drop_first(), id)
    }
}

/// Identifiers are unique within the table.
pub open spec fn unique_ids(reg: Seq<EntryModel>) -> bool {
    forall|i: int, j: int| 0 <= i < j < reg.len() ==> reg[i].id != reg[j].id
}

/// A lookup succeeds exactly on the registered identifiers.
pub proof fn lemma_lookup_contains(reg: Seq<EntryModel>, id: Seq<char>)
    ensures
        (reg_lookup(reg, id) is Some) <==> reg_contains(reg, id),
    decreases reg.len(),
{
    if reg.len() == 0 {
    } else if reg[0].id == id {
        assert(reg_contains(reg, id));
    } else {
        lemma_lookup_contains(reg.drop_first(), id);
        if reg_contains(reg, id) {
            let i = choose|i: int| 0 <= i < reg.len() && reg[i].id == id;
            assert(reg.drop_first()[i - 1] == reg[i]);
            assert(reg_contains(reg.drop_first(), id));
        }
        if reg_contains(reg.drop_first(), id) {
            let j = choose|j: int| 0 <= j < reg.drop_first().len() && reg.drop_first()[j].id == id;
            assert(reg[j + 1].id == id);
        }
    }
}

/// Registration order is irrelevant: in a table with unique
/// identifiers, a lookup returns the kind of the entry carrying the
/// identifier, wherever that entry stands.
pub proof fn lemma_lookup_position_independent(reg: Seq<EntryModel>, i: int)
    requires
        unique_ids(reg),
        0 <= i < reg.len(),
    ensures
        reg_lookup(reg, reg[i].id) == Some(reg[i].kind),
    decreases reg.len(),
{
    if i == 0 {
    } else {
        assert(reg[0].id != reg[i].id);
        assert(reg.drop_first()[i - 1] == reg[i]);
        assert(unique_ids(reg.drop_first())) by {
            assert forall|p: int, q: int|
                0 <= p < q < reg.drop_first().len() implies reg.drop_first()[p].id
                != reg.drop_first()[q].id by {
                assert(reg.drop_first()[p] == reg[p + 1]);
                assert(reg.drop_first()[q] == reg[q + 1]);
            }
        }
        lemma_lookup_position_independent(reg.drop_first(), i - 1);
    }
}

impl CircuitRegistry {
    /// The registry's invariant: no identifier is registered twice.
    pub open spec fn wf(&self) -> bool {
        unique_ids(self@)
    }

    /// An empty registry.
    pub fn new() -> (r: CircuitRegistry)
        ensures
            r@ == Seq::<EntryModel>::empty(),
            r.wf(),
    {
        let r = CircuitRegistry { entries: Vec::new() };
        proof {
            assert(r@ =~= Seq::<EntryModel>::empty());
        }
        r
    }

    fn contains_id(&self, id: &String) -> (b: bool)
        ensures
            b == reg_contains(self@, id@),
    {
        let n = self.entries.len();
        let mut i: usize = 0;
        while i < n
            invariant
                i <= n,
                n == self.entries@.len(),
                forall|k: int| 0 <= k < i ==> self@[k].id != id@,
            decreases n - i,
        {
            if self.entries[i].identifier == *id {
                proof {
                    assert(self@[i as int].id == id@);
                }
                return true;
            }
            i += 1;
        }
        false
    }

    /// Registers one circuit.  Succeeds exactly when the identifier is
    /// not yet present; a duplicate is rejected and leaves the table
    /// unchanged.
    pub fn register(&mut self, identifier: String, kind: WitnessKind) -> (r: Result<
        (),
        RegistryError,
    >)
        ensures
            match r {
                Ok(()) => !reg_contains(old(self)@, identifier@) && final(self)@ == old(
                    self,
                )@.push((EntryModel { id: identifier@, kind })),
                Err(e) => reg_contains(old(self)@, identifier@) && e
                    == RegistryError::DuplicateCircuit && final(self)@ == old(self)@,
            },
            old(self).wf() ==> final(self).wf(),
    {
        if self.contains_id(&identifier) {
            return Err(RegistryError::DuplicateCircuit);
        }
        let ghost prev = self@;
        let entry = CircuitEntry { identifier, kind };
        self.entries.push(entry);
        proof {
            assert(self@ =~= prev.push(entry@));
            if unique_ids(prev) {
                assert forall|i: int, j: int| 0 <= i < j < self@.len() implies self@[i].id
                    != self@[j].id by {
                    if j < prev.len() {
                    } else {
                        assert(self@[j] == entry@);
                        assert(!reg_contains(prev, entry@.id));
                        assert(prev[i].id != entry@.id);
                    }
                }
            }
        }
        Ok(())
    }

    /// Looks up the witness routine registered under `name`.
    pub fn lookup(&self, name: &String) -> (r: Option<WitnessKind>)
        ensures
            r == reg_lookup(self@, name@),
    {
        let n = self.entries.len();
        let mut i: usize = 0;
        proof {
            assert(self@.skip(0) =~= self@);
        }
        while i < n
            invariant
                i <= n,
                n == self.entries@.len(),
                reg_lookup(self@, name@) == reg_lookup(self@.skip(i as int), name@),
            decreases n - i,
        {
            proof {
                assert(self@.skip(i as int)[0] == self@[i as int]);
                assert(self@.skip(i as int).drop_first() =~= self@.skip(i as int + 1));
            }
            if self.entries[i].identifier == *name {
                return Some(self.entries[i].kind);
            }
            i += 1;
        }
        proof {
            assert(self@.skip(n as int) =~= Seq::<EntryModel>::empty());
        }
        None
    }
}

/// The circuits compiled into this library, as registered at startup.
pub open spec fn default_circuits() -> Seq<EntryModel> {
    seq![EntryModel { id: "multiplier2_final.zkey"@, kind: WitnessKind::Multiplier2 }]
}

/// Builds the startup registry: every compiled circuit of this
/// library under its unique identifier.
pub fn default_registry() -> (r: CircuitRegistry)
    ensures
        r@ == default_circuits(),
        r.wf(),
{
    let mut reg = CircuitRegistry::new();
    let entered = reg.register("multiplier2_final.zkey".to_owned(), WitnessKind::Multiplier2);
    proof {
        assert(entered is Ok);
        assert(reg@ =~= default_circuits());
    }
    reg
}

} // verus!
