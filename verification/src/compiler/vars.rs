use vstd::prelude::*;

use crate::gramar::ast::JackDeclaration;
use crate::gramar::units::segments::JackSegment;
use crate::gramar::units::types::{JackType, JackTypeV};
use crate::gramar::units::var_name::JackVariableName;
use crate::util::bytes_equal;
use crate::vm::instructions::{
    AsmInstructionPayload, AsmInstructionV, AsmMemoryInstruction, AsmMemoryInstructionKind,
    AsmMemoryInstructionSegment,
};

verus! {

/// A variable of a symbol table: its type, its segment and its index there.
#[derive(Debug)]
pub struct JackVariable {
    pub kind: JackType,
    pub segment: JackSegment,
    pub idx: u8,
}

/// A variable with its type taken by its view.
pub struct JackVariableV {
    pub kind: JackTypeV,
    pub segment: JackSegment,
    pub idx: u8,
}

impl View for JackVariable {
    type V = JackVariableV;

    open spec fn view(&self) -> JackVariableV {
        JackVariableV { kind: self.kind@, segment: self.segment, idx: self.idx }
    }
}

/// The VM segment that holds a Jack segment's variables.
pub open spec fn vm_segment(s: JackSegment) -> AsmMemoryInstructionSegment {
    match s {
        JackSegment::Arg => AsmMemoryInstructionSegment::Arg,
        JackSegment::Lcl => AsmMemoryInstructionSegment::Local,
        JackSegment::Field => AsmMemoryInstructionSegment::This,
        JackSegment::Static => AsmMemoryInstructionSegment::Static,
    }
}

/// The instruction that pushes a variable's value.
pub open spec fn push_var(v: JackVariableV) -> AsmInstructionV {
    AsmInstructionV::Memory(vm_segment(v.segment), AsmMemoryInstructionKind::Push, v.idx as i16)
}

/// The instruction that pops the top of the stack into a variable.
pub open spec fn pop_var(v: JackVariableV) -> AsmInstructionV {
    AsmInstructionV::Memory(vm_segment(v.segment), AsmMemoryInstructionKind::Pop, v.idx as i16)
}

fn segment_asm(s: JackSegment) -> (r: AsmMemoryInstructionSegment)
    ensures
        r == vm_segment(s),
{
    match s {
        JackSegment::Arg => AsmMemoryInstructionSegment::Arg,
        JackSegment::Lcl => AsmMemoryInstructionSegment::Local,
        JackSegment::Field => AsmMemoryInstructionSegment::This,
        JackSegment::Static => AsmMemoryInstructionSegment::Static,
    }
}

impl JackVariable {
    pub fn new(kind: JackType, segment: JackSegment, idx: u8) -> (r: Self)
        ensures
            r@ == (JackVariableV { kind: kind@, segment, idx }),
    {
        Self { kind, segment, idx }
    }

    /// `push` of the variable.
    pub fn as_asm(&self) -> (r: AsmInstructionPayload)
        ensures
            r@ == push_var(self@),
    {
        AsmInstructionPayload::Memory(
            AsmMemoryInstruction {
                segment: segment_asm(self.segment),
                kind: AsmMemoryInstructionKind::Push,
                val: self.idx as i16,
            },
        )
    }

    /// `pop` into the variable.
    pub fn as_assign_asm(&self) -> (r: AsmInstructionPayload)
        ensures
            r@ == pop_var(self@),
    {
        AsmInstructionPayload::Memory(
            AsmMemoryInstruction {
                segment: segment_asm(self.segment),
                kind: AsmMemoryInstructionKind::Pop,
                val: self.idx as i16,
            },
        )
    }
}

/// How many variables each segment holds so far.
pub struct JackTableNamesCounter {
    pub arg: u8,
    pub lcl: u8,
    pub global: u8,
    pub field: u8,
}

impl JackTableNamesCounter {
    /// The count kept for a segment.
    pub open spec fn count(&self, s: JackSegment) -> u8 {
        match s {
            JackSegment::Arg => self.arg,
            JackSegment::Lcl => self.lcl,
            JackSegment::Field => self.field,
            JackSegment::Static => self.global,
        }
    }

    /// Hands out the next index of a segment and counts it.
    pub fn get(&mut self, segment: &JackSegment) -> (r: u8)
        requires
            old(self).count(*segment) < 255,
        ensures
            r == old(self).count(*segment),
            final(self).count(*segment) == old(self).count(*segment) + 1,
            forall|s: JackSegment| s != *segment ==> final(self).count(s) == old(self).count(s),
    {
        match segment {
            JackSegment::Arg => {
                self.arg = self.arg + 1;
                self.arg - 1
            },
            JackSegment::Lcl => {
                self.lcl = self.lcl + 1;
                self.lcl - 1
            },
            JackSegment::Field => {
                self.field = self.field + 1;
                self.field - 1
            },
            JackSegment::Static => {
                self.global = self.global + 1;
                self.global - 1
            },
        }
    }
}

/// A name and its variable, both by their views.
pub type NamedVar = (Seq<u8>, JackVariableV);

/// `m` with the pairs of `s` inserted in order: a later pair of a name
/// replaces an earlier one.
pub open spec fn insert_all(m: Map<Seq<u8>, JackVariableV>, s: Seq<NamedVar>) -> Map<
    Seq<u8>,
    JackVariableV,
>
    decreases s.len(),
{
    if s.len() == 0 {
        m
    } else {
        insert_all(m, s.drop_last()).insert(s.last().0, s.last().1)
    }
}

/// A symbol table by its view: the variables by name, and the counts.
pub struct TableV {
    pub vars: Map<Seq<u8>, JackVariableV>,
    pub arg: u8,
    pub lcl: u8,
    pub global: u8,
    pub field: u8,
}

impl TableV {
    /// The count kept for a segment.
    pub open spec fn count(self, s: JackSegment) -> u8 {
        match s {
            JackSegment::Arg => self.arg,
            JackSegment::Lcl => self.lcl,
            JackSegment::Field => self.field,
            JackSegment::Static => self.global,
        }
    }
}

/// The empty table.
pub open spec fn empty_table() -> TableV {
    TableV { vars: Map::empty(), arg: 0, lcl: 0, global: 0, field: 0 }
}

/// A declaration by its view.
pub struct DeclarationV {
    pub segment: JackSegment,
    pub kind: JackTypeV,
    pub names: Seq<Seq<u8>>,
}

impl View for JackDeclaration {
    type V = DeclarationV;

    open spec fn view(&self) -> DeclarationV {
        DeclarationV {
            segment: self.segment,
            kind: self.kind@,
            names: self.names@.map_values(|n: JackVariableName| n.0@),
        }
    }
}

/// A declaration after its type and names were moved out: a class type
/// keeps an empty name, and every name is empty.
pub open spec fn declaration_taken(d: DeclarationV) -> DeclarationV {
    DeclarationV {
        segment: d.segment,
        kind: match d.kind {
            JackTypeV::Class(_) => JackTypeV::Class(Seq::empty()),
            b => b,
        },
        names: Seq::new(d.names.len(), |j: int| Seq::<u8>::empty()),
    }
}

/// The variables that a declaration adds when its segment has counted `c`
/// so far, in the order in which they are entered: the names after the first
/// take the indices `c + 1` on, and the first name, entered last, takes `c`.
pub open spec fn declared_vars(d: DeclarationV, c: u8) -> Seq<NamedVar> {
    Seq::new(
        (d.names.len() - 1) as nat,
        |j: int| (d.names[j + 1], JackVariableV { kind: d.kind, segment: d.segment, idx: (c + j + 1) as u8 }),
    ).push((d.names[0], JackVariableV { kind: d.kind, segment: d.segment, idx: c }))
}

/// A declaration can be entered: it names at least one variable and its
/// segment's count stays within a byte.
pub open spec fn can_migrate(t: TableV, d: DeclarationV) -> bool {
    &&& d.names.len() >= 1
    &&& t.count(d.segment) + d.names.len() <= 255
}

/// The table after a declaration is entered.
pub open spec fn migrated(t: TableV, d: DeclarationV) -> TableV {
    let c = t.count(d.segment);
    let n = (c + d.names.len()) as u8;
    TableV {
        vars: insert_all(t.vars, declared_vars(d, c)),
        arg: if d.segment == JackSegment::Arg { n } else { t.arg },
        lcl: if d.segment == JackSegment::Lcl { n } else { t.lcl },
        global: if d.segment == JackSegment::Static { n } else { t.global },
        field: if d.segment == JackSegment::Field { n } else { t.field },
    }
}

/// Declarations in order can all be entered.
pub open spec fn can_migrate_all(t: TableV, ds: Seq<DeclarationV>) -> bool
    decreases ds.len(),
{
    if ds.len() == 0 {
        true
    } else {
        can_migrate_all(t, ds.drop_last()) && can_migrate(
            migrated_all(t, ds.drop_last()),
            ds.last(),
        )
    }
}

/// The table after declarations are entered in order.
pub open spec fn migrated_all(t: TableV, ds: Seq<DeclarationV>) -> TableV
    decreases ds.len(),
{
    if ds.len() == 0 {
        t
    } else {
        migrated(migrated_all(t, ds.drop_last()), ds.last())
    }
}

/// The views of the declarations.
pub open spec fn declaration_views(ds: Seq<JackDeclaration>) -> Seq<DeclarationV> {
    ds.map_values(|d: JackDeclaration| d@)
}

/// A symbol table: the variables by name, and how many each segment holds.
pub struct JackTableNames {
    entries: Vec<(JackVariableName, JackVariable)>,
    counter: JackTableNamesCounter,
}

/// The views of the entries of a table.
pub open spec fn entry_views(s: Seq<(JackVariableName, JackVariable)>) -> Seq<NamedVar> {
    s.map_values(|e: (JackVariableName, JackVariable)| (e.0.0@, e.1@))
}

impl View for JackTableNames {
    type V = TableV;

    closed spec fn view(&self) -> TableV {
        TableV {
            vars: insert_all(Map::empty(), entry_views(self.entries@)),
            arg: self.counter.arg,
            lcl: self.counter.lcl,
            global: self.counter.global,
            field: self.counter.field,
        }
    }
}

/// A name absent from all pairs keeps its lookup.
pub proof fn lemma_insert_all_absent(m: Map<Seq<u8>, JackVariableV>, s: Seq<NamedVar>, k: Seq<u8>)
    requires
        forall|j: int| 0 <= j < s.len() ==> #[trigger] s[j].0 != k,
    ensures
        insert_all(m, s).contains_key(k) == m.contains_key(k),
        m.contains_key(k) ==> insert_all(m, s)[k] == m[k],
    decreases s.len(),
{
    if s.len() > 0 {
        let p = s.drop_last();
        assert forall|j: int| 0 <= j < p.len() implies #[trigger] p[j].0 != k by {
            assert(p[j] == s[j]);
        }
        assert(s[s.len() - 1].0 != k);
        lemma_insert_all_absent(m, p, k);
    }
}

/// A name is found at its last pair.
pub proof fn lemma_insert_all_last(
    m: Map<Seq<u8>, JackVariableV>,
    s: Seq<NamedVar>,
    i: int,
    k: Seq<u8>,
)
    requires
        0 <= i < s.len(),
        s[i].0 == k,
        forall|j: int| i < j < s.len() ==> #[trigger] s[j].0 != k,
    ensures
        insert_all(m, s).contains_key(k),
        insert_all(m, s)[k] == s[i].1,
    decreases s.len(),
{
    if i < s.len() - 1 {
        let p = s.drop_last();
        assert forall|j: int| i < j < p.len() implies #[trigger] p[j].0 != k by {
            assert(p[j] == s[j]);
        }
        assert(s[s.len() - 1].0 != k);
        lemma_insert_all_last(m, p, i, k);
    }
}

impl Default for JackTableNamesCounter {
    fn default() -> (r: Self)
        ensures
            r.arg == 0 && r.lcl == 0 && r.global == 0 && r.field == 0,
    {
        JackTableNamesCounter { arg: 0, lcl: 0, global: 0, field: 0 }
    }
}

impl Default for JackTableNames {
    fn default() -> (r: Self)
        ensures
            r@ == empty_table(),
    {
        Self::new()
    }
}

impl JackTableNames {
    /// Enters a declaration's variables: the first name takes the next index
    /// of the declaration's segment and the others the indices after it.
    /// The declaration's type and names are moved out, leaving them empty.
    pub fn migrate(&mut self, declaration: &mut JackDeclaration)
        requires
            can_migrate(old(self)@, old(declaration)@),
        ensures
            final(self)@ == migrated(old(self)@, old(declaration)@),
            final(declaration)@ == declaration_taken(old(declaration)@),
    {
        let ghost d0 = declaration@;
        let ghost t0 = self@;
        let ghost c0 = t0.count(d0.segment);
        proof {
            assert(d0.names[0] == declaration.names@[0].0@);
        }
        let kind = declaration.kind.take();
        let segment = declaration.segment;
        let first_variable = self.new_variable(kind, segment);
        let ghost added: Seq<NamedVar> = Seq::empty();
        let n = declaration.names.len();
        let first_name = declaration.names[0].take();
        let mut i: usize = 1;
        while i < n
            invariant
                1 <= i <= n,
                n == declaration.names@.len(),
                n == d0.names.len(),
                c0 + n <= 255,
                segment == d0.segment,
                declaration.segment == d0.segment,
                declaration.kind@ == declaration_taken(d0).kind,
                first_variable@ == (JackVariableV { kind: d0.kind, segment, idx: c0 }),
                first_name.0@ == d0.names[0],
                forall|j: int| i <= j < n ==> #[trigger] declaration.names@[j].0@ == d0.names[j],
                forall|j: int| 0 <= j < i ==> #[trigger] declaration.names@[j].0@ == Seq::<u8>::empty(),
                added == declared_vars(d0, c0).subrange(0, i - 1),
                self@.vars == insert_all(t0.vars, added),
                self@.count(segment) == c0 + i,
                forall|s: JackSegment| s != segment ==> self@.count(s) == t0.count(s),
            decreases n - i,
        {
            let v = self.new_next_variable(&first_variable);
            let name = declaration.names[i].take();
            let ghost before = self.entries@;
            self.entries.push((name, v));
            proof {
                let x = (d0.names[i as int], v@);
                assert(entry_views(self.entries@) =~= entry_views(before).push(x));
                assert(entry_views(self.entries@).drop_last() =~= entry_views(before));
                assert(added.push(x).drop_last() =~= added);
                added = added.push(x);
                assert(added =~= declared_vars(d0, c0).subrange(0, i as int));
            }
            i = i + 1;
        }
        let ghost before = self.entries@;
        self.entries.push((first_name, first_variable));
        proof {
            let x = (d0.names[0], JackVariableV { kind: d0.kind, segment, idx: c0 });
            assert(entry_views(self.entries@) =~= entry_views(before).push(x));
            assert(entry_views(self.entries@).drop_last() =~= entry_views(before));
            assert(declared_vars(d0, c0) =~= added.push(x));
            assert(declared_vars(d0, c0).drop_last() =~= added);
            let m = migrated(t0, d0);
            assert(((c0 + n) as u8) as int == c0 + n);
            assert(m.count(segment) == c0 + n);
            assert(self@.vars =~= m.vars);
            if segment == JackSegment::Arg {
                assert(self@.count(JackSegment::Arg) == c0 + n);
                assert(m.count(JackSegment::Arg) == c0 + n);
            } else {
                assert(self@.count(JackSegment::Arg) == t0.count(JackSegment::Arg));
                assert(m.count(JackSegment::Arg) == t0.count(JackSegment::Arg));
            }
            if segment == JackSegment::Lcl {
                assert(self@.count(JackSegment::Lcl) == c0 + n);
                assert(m.count(JackSegment::Lcl) == c0 + n);
            } else {
                assert(self@.count(JackSegment::Lcl) == t0.count(JackSegment::Lcl));
                assert(m.count(JackSegment::Lcl) == t0.count(JackSegment::Lcl));
            }
            if segment == JackSegment::Field {
                assert(self@.count(JackSegment::Field) == c0 + n);
                assert(m.count(JackSegment::Field) == c0 + n);
            } else {
                assert(self@.count(JackSegment::Field) == t0.count(JackSegment::Field));
                assert(m.count(JackSegment::Field) == t0.count(JackSegment::Field));
            }
            if segment == JackSegment::Static {
                assert(self@.count(JackSegment::Static) == c0 + n);
                assert(m.count(JackSegment::Static) == c0 + n);
            } else {
                assert(self@.count(JackSegment::Static) == t0.count(JackSegment::Static));
                assert(m.count(JackSegment::Static) == t0.count(JackSegment::Static));
            }
            assert(self@ == m);
            assert(declaration@.names =~= declaration_taken(d0).names);
        }
    }

    /// The variable of a name, if the table holds one.
    pub fn get(&self, name: &JackVariableName) -> (r: Option<&JackVariable>)
        ensures
            r is Some == self@.vars.contains_key(name.0@),
            r matches Some(v) ==> v@ == self@.vars[name.0@],
    {
        let ghost ev = entry_views(self.entries@);
        let mut i = self.entries.len();
        while i > 0
            invariant
                i <= self.entries@.len(),
                ev == entry_views(self.entries@),
                forall|j: int| i <= j < ev.len() ==> #[trigger] ev[j].0 != name.0@,
            decreases i,
        {
            if bytes_equal(self.entries[i - 1].0.0.as_slice(), name.0.as_slice()) {
                proof {
                    lemma_insert_all_last(Map::empty(), ev, i - 1, name.0@);
                }
                return Some(&self.entries[i - 1].1);
            }
            i = i - 1;
        }
        proof {
            lemma_insert_all_absent(Map::empty(), ev, name.0@);
        }
        None
    }

    /// How many locals the table holds.
    pub fn local(&self) -> (r: u8)
        ensures
            r == self@.lcl,
    {
        self.counter.lcl
    }

    /// How many fields the table holds.
    pub fn fields(&self) -> (r: u8)
        ensures
            r == self@.field,
    {
        self.counter.field
    }

    fn new_variable(&mut self, kind: JackType, segment: JackSegment) -> (r: JackVariable)
        requires
            old(self)@.count(segment) < 255,
        ensures
            r@ == (JackVariableV { kind: kind@, segment, idx: old(self)@.count(segment) }),
            final(self)@.vars == old(self)@.vars,
            final(self)@.count(segment) == old(self)@.count(segment) + 1,
            forall|s: JackSegment| s != segment ==> final(self)@.count(s) == old(self)@.count(s),
    {
        let idx = self.counter.get(&segment);
        proof {
            assert forall|s: JackSegment| s != segment implies final(self)@.count(s) == old(
                self,
            )@.count(s) by {
                assert(self.counter.count(s) == old(self).counter.count(s));
            }
        }
        JackVariable::new(kind, segment, idx)
    }

    fn new_next_variable(&mut self, variable: &JackVariable) -> (r: JackVariable)
        requires
            old(self)@.count(variable.segment) < 255,
        ensures
            r@ == (JackVariableV {
                kind: variable.kind@,
                segment: variable.segment,
                idx: old(self)@.count(variable.segment),
            }),
            final(self)@.vars == old(self)@.vars,
            final(self)@.count(variable.segment) == old(self)@.count(variable.segment) + 1,
            forall|s: JackSegment|
                s != variable.segment ==> final(self)@.count(s) == old(self)@.count(s),
    {
        self.new_variable(variable.kind.clone(), variable.segment)
    }

    /// An empty table.
    pub fn new() -> (r: Self)
        ensures
            r@ == empty_table(),
    {
        let r = JackTableNames {
            entries: Vec::new(),
            counter: JackTableNamesCounter { arg: 0, lcl: 0, global: 0, field: 0 },
        };
        assert(r@.vars =~= Map::empty());
        r
    }

    /// Enters declarations in order.
    pub fn migrate_all(&mut self, ds: &mut Vec<JackDeclaration>)
        requires
            can_migrate_all(old(self)@, declaration_views(old(ds)@)),
        ensures
            final(self)@ == migrated_all(old(self)@, declaration_views(old(ds)@)),
            final(ds)@.len() == old(ds)@.len(),
            forall|j: int|
                0 <= j < final(ds)@.len() ==> (#[trigger] final(ds)@[j])@ == declaration_taken(
                    old(ds)@[j]@,
                ),
    {
        let ghost dv = declaration_views(ds@);
        let n = ds.len();
        let mut i: usize = 0;
        while i < n
            invariant
                i <= n,
                n == ds@.len(),
                dv.len() == n,
                can_migrate_all(old(self)@, dv),
                forall|j: int| i <= j < n ==> #[trigger] ds@[j]@ == dv[j],
                forall|j: int| 0 <= j < i ==> (#[trigger] ds@[j])@ == declaration_taken(dv[j]),
                forall|j: int| 0 <= j < n ==> #[trigger] dv[j] == old(ds)@[j]@,
                self@ == migrated_all(old(self)@, dv.subrange(0, i as int)),
            decreases n - i,
        {
            proof {
                lemma_can_migrate_prefix(old(self)@, dv, i as int + 1);
                assert(dv.subrange(0, i + 1).drop_last() =~= dv.subrange(0, i as int));
                assert(ds@[i as int]@ == dv[i as int]);
            }
            self.migrate(&mut ds[i]);
            i = i + 1;
        }
        assert(dv.subrange(0, n as int) =~= dv);
    }
}

/// The declarations of a prefix can be entered when all can.
pub proof fn lemma_can_migrate_prefix(t: TableV, ds: Seq<DeclarationV>, k: int)
    requires
        0 <= k <= ds.len(),
        can_migrate_all(t, ds),
    ensures
        can_migrate_all(t, ds.subrange(0, k)),
    decreases ds.len(),
{
    if k < ds.len() {
        assert(ds.drop_last() =~= ds.subrange(0, ds.len() - 1));
        lemma_can_migrate_prefix(t, ds.drop_last(), k);
        assert(ds.drop_last().subrange(0, k) =~= ds.subrange(0, k));
    } else {
        assert(ds.subrange(0, k) =~= ds);
    }
}

/// Entering two runs of declarations is entering the first, then the
/// second.
pub proof fn lemma_migrate_all_concat(t: TableV, a: Seq<DeclarationV>, b: Seq<DeclarationV>)
    ensures
        can_migrate_all(t, a + b) == (can_migrate_all(t, a) && can_migrate_all(
            migrated_all(t, a),
            b,
        )),
        migrated_all(t, a + b) == migrated_all(migrated_all(t, a), b),
    decreases b.len(),
{
    if b.len() == 0 {
        assert(a + b =~= a);
    } else {
        lemma_migrate_all_concat(t, a, b.drop_last());
        assert((a + b).drop_last() =~= a + b.drop_last());
        assert((a + b).last() == b.last());
    }
}

/// Entering one declaration.
pub proof fn lemma_migrate_all_single(t: TableV, d: DeclarationV)
    ensures
        can_migrate_all(t, seq![d]) == can_migrate(t, d),
        migrated_all(t, seq![d]) == migrated(t, d),
{
    let e = seq![d].drop_last();
    assert(e =~= Seq::<DeclarationV>::empty());
    assert(can_migrate_all(t, e));
    assert(migrated_all(t, e) == t);
    assert(seq![d].last() == d);
}

/// The names of a declaration differ from one another.
pub open spec fn names_distinct(d: DeclarationV) -> bool {
    forall|i: int, j: int| 0 <= i < j < d.names.len() ==> #[trigger] d.names[i] != #[trigger] d.names[j]
}

/// Entering a declaration of distinct names gives the `j`-th name the index
/// `j` past the segment's count before, with the declaration's type and
/// segment.
pub proof fn lemma_migrated_lookup(t: TableV, d: DeclarationV, j: int)
    requires
        can_migrate(t, d),
        names_distinct(d),
        0 <= j < d.names.len(),
    ensures
        migrated(t, d).vars.contains_key(d.names[j]),
        migrated(t, d).vars[d.names[j]] == (JackVariableV {
            kind: d.kind,
            segment: d.segment,
            idx: (t.count(d.segment) + j) as u8,
        }),
{
    let c = t.count(d.segment);
    let s = declared_vars(d, c);
    let n = d.names.len() as int;
    if j == 0 {
        lemma_insert_all_last(t.vars, s, n - 1, d.names[0]);
    } else {
        assert(s[j - 1].0 == d.names[j]);
        assert forall|k: int| j - 1 < k < s.len() implies #[trigger] s[k].0 != d.names[j] by {
            if k < n - 1 {
                assert(s[k].0 == d.names[k + 1]);
            } else {
                assert(s[k].0 == d.names[0]);
            }
        }
        lemma_insert_all_last(t.vars, s, j - 1, d.names[j]);
    }
}

/// Entering a declaration keeps the variables of names it does not declare.
pub proof fn lemma_migrated_keeps(t: TableV, d: DeclarationV, k: Seq<u8>)
    requires
        can_migrate(t, d),
        forall|i: int| 0 <= i < d.names.len() ==> #[trigger] d.names[i] != k,
    ensures
        migrated(t, d).vars.contains_key(k) == t.vars.contains_key(k),
        t.vars.contains_key(k) ==> migrated(t, d).vars[k] == t.vars[k],
{
    let s = declared_vars(d, t.count(d.segment));
    let n = d.names.len() as int;
    assert forall|i: int| 0 <= i < s.len() implies #[trigger] s[i].0 != k by {
        if i < n - 1 {
            assert(s[i].0 == d.names[i + 1]);
        } else {
            assert(s[i].0 == d.names[0]);
        }
    }
    lemma_insert_all_absent(t.vars, s, k);
}


/// Whether a declaration declares the name `k`.
pub open spec fn declares(d: DeclarationV, k: Seq<u8>) -> bool {
    exists|i: int| 0 <= i < d.names.len() && d.names[i] == k
}

/// Entering a declaration of `k` distinct names whose segment counted `c`:
/// a lookup of the `i`-th name gives index `c + i` with the declaration's
/// type and segment, the segment now counts `c + k`, the other segments keep
/// their counts, and every other name keeps its variable.
#[verifier::spinoff_prover]
pub proof fn lemma_migrate_numbers(t: TableV, d: DeclarationV)
    requires
        can_migrate(t, d),
        names_distinct(d),
    ensures
        forall|i: int|
            0 <= i < d.names.len() ==> migrated(t, d).vars.contains_key(#[trigger] d.names[i])
                && migrated(t, d).vars[d.names[i]] == (JackVariableV {
                kind: d.kind,
                segment: d.segment,
                idx: (t.count(d.segment) + i) as u8,
            }),
        migrated(t, d).count(d.segment) == t.count(d.segment) + d.names.len(),
        forall|s: JackSegment| s != d.segment ==> #[trigger] migrated(t, d).count(s) == t.count(s),
        forall|k: Seq<u8>|
            #![trigger migrated(t, d).vars.contains_key(k)]
            !declares(d, k) ==> (migrated(t, d).vars.contains_key(k)
                == t.vars.contains_key(k) && (t.vars.contains_key(k) ==> migrated(t, d).vars[k]
                == t.vars[k])),
{
    assert forall|i: int| 0 <= i < d.names.len() implies migrated(t, d).vars.contains_key(
        #[trigger] d.names[i],
    ) && migrated(t, d).vars[d.names[i]] == (JackVariableV {
        kind: d.kind,
        segment: d.segment,
        idx: (t.count(d.segment) + i) as u8,
    }) by {
        lemma_migrated_lookup(t, d, i);
    }
    assert forall|k: Seq<u8>|
        #![trigger migrated(t, d).vars.contains_key(k)]
        !declares(d, k) implies (migrated(t, d).vars.contains_key(k)
        == t.vars.contains_key(k) && (t.vars.contains_key(k) ==> migrated(t, d).vars[k]
        == t.vars[k])) by {
        assert forall|i: int| 0 <= i < d.names.len() implies #[trigger] d.names[i] != k by {
            if d.names[i] == k {
                assert(declares(d, k));
            }
        }
        lemma_migrated_keeps(t, d, k);
    }
}

/// A variable lives in the VM segment of its kind: an argument in
/// `argument`, a local in `local`, a field in `this`, a static in
/// `static`.
pub proof fn lemma_variable_segments()
    ensures
        crate::vm::instructions::segment_text(vm_segment(JackSegment::Arg)) == seq!['a' as u8, 'r' as u8, 'g' as u8, 'u' as u8, 'm' as u8, 'e' as u8, 'n' as u8, 't' as u8],
        crate::vm::instructions::segment_text(vm_segment(JackSegment::Lcl)) == seq!['l' as u8, 'o' as u8, 'c' as u8, 'a' as u8, 'l' as u8],
        crate::vm::instructions::segment_text(vm_segment(JackSegment::Field)) == seq!['t' as u8, 'h' as u8, 'i' as u8, 's' as u8],
        crate::vm::instructions::segment_text(vm_segment(JackSegment::Static)) == seq!['s' as u8, 't' as u8, 'a' as u8, 't' as u8, 'i' as u8, 'c' as u8],
{
}

} // verus!
