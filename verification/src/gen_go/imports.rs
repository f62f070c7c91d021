//! Go import statements, and the set of them that one generation pass collects.
//!
//! The set keeps its members in one fixed order, whatever the order in which
//! they arrived, so that the same interface always gives the same file.

use vstd::prelude::*;
use vstd::utf8::{decode_utf8, encode_utf8, encode_utf8_decode_utf8};

use super::text::concat3;

verus! {

/// A Go import statement that the generated file needs.
#[derive(Debug, PartialEq, Eq, PartialOrd, Ord)]
pub enum ImportRequirement {
    /// A plain import of a package.
    Module { mod_name: String },
    /// An import that brings every exported name of a package into scope.
    ModuleAll { mod_name: String },
}

/// What an import statement says: which package it names, and whether it
/// imports the package's names themselves.
pub struct ImportView {
    pub all: bool,
    pub path: Seq<char>,
}

impl View for ImportRequirement {
    type V = ImportView;

    open spec fn view(&self) -> ImportView {
        match self {
            ImportRequirement::Module { mod_name } => ImportView { all: false, path: mod_name@ },
            ImportRequirement::ModuleAll { mod_name } => ImportView { all: true, path: mod_name@ },
        }
    }
}

impl Clone for ImportRequirement {
    fn clone(&self) -> (r: Self)
        ensures
            r == *self,
    {
        match self {
            ImportRequirement::Module { mod_name } => ImportRequirement::Module {
                mod_name: mod_name.clone(),
            },
            ImportRequirement::ModuleAll { mod_name } => ImportRequirement::ModuleAll {
                mod_name: mod_name.clone(),
            },
        }
    }
}

/// The order of byte strings in which a proper prefix comes first, and
/// otherwise the first byte that differs decides.
pub open spec fn bytes_before(a: Seq<u8>, b: Seq<u8>) -> bool
    decreases a.len(),
{
    if b.len() == 0 {
        false
    } else if a.len() == 0 {
        true
    } else if a[0] != b[0] {
        a[0] < b[0]
    } else {
        bytes_before(a.drop_first(), b.drop_first())
    }
}

/// The order of import statements: plain imports first, and among imports of
/// one kind the UTF-8 bytes of the package path decide.
pub open spec fn import_before(a: ImportView, b: ImportView) -> bool {
    if a.all != b.all {
        !a.all
    } else {
        bytes_before(encode_utf8(a.path), encode_utf8(b.path))
    }
}

/// Each member comes before all that follow it.
pub open spec fn strictly_sorted(s: Seq<ImportView>) -> bool {
    forall|i: int, j: int| 0 <= i < j < s.len() ==> import_before(#[trigger] s[i], #[trigger] s[j])
}

pub proof fn lemma_bytes_before_irreflexive(a: Seq<u8>)
    ensures
        !bytes_before(a, a),
    decreases a.len(),
{
    if a.len() > 0 {
        lemma_bytes_before_irreflexive(a.drop_first());
    }
}

pub proof fn lemma_bytes_before_transitive(a: Seq<u8>, b: Seq<u8>, c: Seq<u8>)
    requires
        bytes_before(a, b),
        bytes_before(b, c),
    ensures
        bytes_before(a, c),
    decreases a.len(),
{
    if a.len() > 0 && a[0] == b[0] && b[0] == c[0] {
        lemma_bytes_before_transitive(a.drop_first(), b.drop_first(), c.drop_first());
    }
}

pub proof fn lemma_bytes_before_total(a: Seq<u8>, b: Seq<u8>)
    ensures
        bytes_before(a, b) || bytes_before(b, a) || a == b,
    decreases a.len(),
{
    if a.len() > 0 && b.len() > 0 && a[0] == b[0] {
        lemma_bytes_before_total(a.drop_first(), b.drop_first());
        if a.drop_first() == b.drop_first() {
            assert(a =~= seq![a[0]] + a.drop_first());
            assert(b =~= seq![b[0]] + b.drop_first());
        }
    } else if a.len() == 0 && b.len() == 0 {
        assert(a =~= b);
    }
}

/// Two paths with the same UTF-8 bytes are the same path.
pub proof fn lemma_encoding_injective(a: Seq<char>, b: Seq<char>)
    requires
        encode_utf8(a) == encode_utf8(b),
    ensures
        a == b,
{
    encode_utf8_decode_utf8(a);
    encode_utf8_decode_utf8(b);
    assert(decode_utf8(encode_utf8(a)) == a);
    assert(decode_utf8(encode_utf8(b)) == b);
}

/// No import statement comes before itself.
pub proof fn lemma_import_before_irreflexive(a: ImportView)
    ensures
        !import_before(a, a),
{
    lemma_bytes_before_irreflexive(encode_utf8(a.path));
}

/// The order of import statements is transitive.
pub proof fn lemma_import_before_transitive(a: ImportView, b: ImportView, c: ImportView)
    requires
        import_before(a, b),
        import_before(b, c),
    ensures
        import_before(a, c),
{
    if a.all == b.all && b.all == c.all {
        lemma_bytes_before_transitive(encode_utf8(a.path), encode_utf8(b.path), encode_utf8(c.path));
    }
}

/// Of two different import statements one comes before the other.
pub proof fn lemma_import_before_total(a: ImportView, b: ImportView)
    ensures
        import_before(a, b) || import_before(b, a) || a == b,
{
    if a.all == b.all {
        lemma_bytes_before_total(encode_utf8(a.path), encode_utf8(b.path));
        if encode_utf8(a.path) == encode_utf8(b.path) {
            lemma_encoding_injective(a.path, b.path);
        }
    }
}

/// A sorted list is determined by its members: two sorted lists that hold the
/// same import statements are the same list. So the order in which statements
/// were collected leaves no trace in what is emitted.
pub proof fn lemma_sorted_unique(a: Seq<ImportView>, b: Seq<ImportView>)
    requires
        strictly_sorted(a),
        strictly_sorted(b),
        forall|v: ImportView| a.contains(v) <==> b.contains(v),
    ensures
        a == b,
    decreases a.len(),
{
    if a.len() == 0 {
        if b.len() > 0 {
            assert(b.contains(b[0]));
        }
        assert(a =~= b);
    } else if b.len() == 0 {
        assert(a.contains(a[0]));
    } else {
        // The least member is the first of either list.
        assert(a.contains(a[0]));
        assert(b.contains(b[0]));
        let i = choose|i: int| 0 <= i < b.len() && b[i] == a[0];
        let j = choose|j: int| 0 <= j < a.len() && a[j] == b[0];
        if i > 0 && j > 0 {
            assert(import_before(b[0], b[i]));
            assert(import_before(a[0], a[j]));
            lemma_import_before_transitive(a[0], b[0], a[0]);
            lemma_import_before_irreflexive(a[0]);
        }
        if i > 0 && j == 0 {
            assert(import_before(b[0], b[i]));
            lemma_import_before_irreflexive(a[0]);
        }
        if j > 0 && i == 0 {
            assert(import_before(a[0], a[j]));
            lemma_import_before_irreflexive(a[0]);
        }
        assert(a[0] == b[0]);
        let ra = a.drop_first();
        let rb = b.drop_first();
        assert forall|v: ImportView| ra.contains(v) <==> rb.contains(v) by {
            if ra.contains(v) {
                let k = choose|k: int| 0 <= k < ra.len() && ra[k] == v;
                assert(a[k + 1] == v);
                assert(a.contains(v));
                assert(import_before(a[0], a[k + 1]));
                let m = choose|m: int| 0 <= m < b.len() && b[m] == v;
                if m == 0 {
                    lemma_import_before_irreflexive(v);
                }
                assert(rb[m - 1] == v);
            }
            if rb.contains(v) {
                let k = choose|k: int| 0 <= k < rb.len() && rb[k] == v;
                assert(b[k + 1] == v);
                assert(b.contains(v));
                assert(import_before(b[0], b[k + 1]));
                let m = choose|m: int| 0 <= m < a.len() && a[m] == v;
                if m == 0 {
                    lemma_import_before_irreflexive(v);
                }
                assert(ra[m - 1] == v);
            }
        }
        assert forall|p: int, q: int| 0 <= p < q < ra.len() implies import_before(
            #[trigger] ra[p],
            #[trigger] ra[q],
        ) by {
            assert(import_before(a[p + 1], a[q + 1]));
        }
        assert forall|p: int, q: int| 0 <= p < q < rb.len() implies import_before(
            #[trigger] rb[p],
            #[trigger] rb[q],
        ) by {
            assert(import_before(b[p + 1], b[q + 1]));
        }
        lemma_sorted_unique(ra, rb);
        assert(a =~= seq![a[0]] + ra);
        assert(b =~= seq![b[0]] + rb);
    }
}

/// A sorted list with one more import statement in its place. A statement that
/// the list holds already changes nothing.
pub open spec fn inserted(s: Seq<ImportView>, v: ImportView) -> Seq<ImportView>
    decreases s.len(),
{
    if s.len() == 0 {
        seq![v]
    } else if s[0] == v {
        s
    } else if import_before(v, s[0]) {
        seq![v] + s
    } else {
        seq![s[0]] + inserted(s.drop_first(), v)
    }
}

/// Inserting keeps a list sorted and adds the one statement to its members.
pub proof fn lemma_inserted(s: Seq<ImportView>, v: ImportView)
    requires
        strictly_sorted(s),
    ensures
        strictly_sorted(inserted(s, v)),
        forall|w: ImportView| inserted(s, v).contains(w) <==> (s.contains(w) || w == v),
        s.contains(v) ==> inserted(s, v) == s,
        !s.contains(v) ==> inserted(s, v).len() == s.len() + 1,
    decreases s.len(),
{
    let r = inserted(s, v);
    if s.len() == 0 {
        assert(r[0] == v);
        assert forall|w: ImportView| r.contains(w) <==> (s.contains(w) || w == v) by {
            if r.contains(w) {
                let k = choose|k: int| 0 <= k < r.len() && r[k] == w;
                assert(k == 0);
            }
        }
    } else if s[0] == v {
        assert(s.contains(v));
    } else if import_before(v, s[0]) {
        assert forall|i: int, j: int| 0 <= i < j < r.len() implies import_before(
            #[trigger] r[i],
            #[trigger] r[j],
        ) by {
            if i == 0 {
                if j > 1 {
                    assert(import_before(s[0], s[j - 1]));
                    lemma_import_before_transitive(v, s[0], s[j - 1]);
                }
            } else {
                assert(import_before(s[i - 1], s[j - 1]));
            }
        }
        assert forall|w: ImportView| r.contains(w) <==> (s.contains(w) || w == v) by {
            if r.contains(w) {
                let k = choose|k: int| 0 <= k < r.len() && r[k] == w;
                if k > 0 {
                    assert(s[k - 1] == w);
                }
            }
            if s.contains(w) {
                let k = choose|k: int| 0 <= k < s.len() && s[k] == w;
                assert(r[k + 1] == w);
            }
            if w == v {
                assert(r[0] == w);
            }
        }
        if s.contains(v) {
            let k = choose|k: int| 0 <= k < s.len() && s[k] == v;
            if k > 0 {
                assert(import_before(s[0], s[k]));
                lemma_import_before_transitive(v, s[0], v);
            }
            lemma_import_before_irreflexive(v);
        }
    } else {
        let rest = s.drop_first();
        assert forall|i: int, j: int| 0 <= i < j < rest.len() implies import_before(
            #[trigger] rest[i],
            #[trigger] rest[j],
        ) by {
            assert(import_before(s[i + 1], s[j + 1]));
        }
        lemma_inserted(rest, v);
        let tail = inserted(rest, v);
        lemma_import_before_total(v, s[0]);
        assert(import_before(s[0], v));
        assert forall|i: int, j: int| 0 <= i < j < r.len() implies import_before(
            #[trigger] r[i],
            #[trigger] r[j],
        ) by {
            if i == 0 {
                assert(tail.contains(tail[j - 1]));
                if rest.contains(tail[j - 1]) {
                    let k = choose|k: int| 0 <= k < rest.len() && rest[k] == tail[j - 1];
                    assert(import_before(s[0], s[k + 1]));
                }
            } else {
                assert(import_before(tail[i - 1], tail[j - 1]));
            }
        }
        assert forall|w: ImportView| r.contains(w) <==> (s.contains(w) || w == v) by {
            if r.contains(w) {
                let k = choose|k: int| 0 <= k < r.len() && r[k] == w;
                if k == 0 {
                    assert(s[0] == w);
                } else {
                    assert(tail[k - 1] == w);
                    assert(tail.contains(w));
                    if rest.contains(w) {
                        let m = choose|m: int| 0 <= m < rest.len() && rest[m] == w;
                        assert(s[m + 1] == w);
                    }
                }
            }
            if s.contains(w) {
                let k = choose|k: int| 0 <= k < s.len() && s[k] == w;
                if k == 0 {
                    assert(r[0] == w);
                } else {
                    assert(rest[k - 1] == w);
                    assert(rest.contains(w));
                    assert(tail.contains(w));
                    let m = choose|m: int| 0 <= m < tail.len() && tail[m] == w;
                    assert(r[m + 1] == w);
                }
            }
            if w == v {
                assert(tail.contains(v));
                let m = choose|m: int| 0 <= m < tail.len() && tail[m] == v;
                assert(r[m + 1] == v);
            }
        }
        if s.contains(v) {
            let k = choose|k: int| 0 <= k < s.len() && s[k] == v;
            assert(rest[k - 1] == v);
            assert(rest.contains(v));
            assert(r =~= s);
        } else {
            if rest.contains(v) {
                let k = choose|k: int| 0 <= k < rest.len() && rest[k] == v;
                assert(s[k + 1] == v);
            }
        }
    }
}

/// Inserting a statement a second time changes nothing.
pub proof fn lemma_inserted_twice(s: Seq<ImportView>, v: ImportView)
    requires
        strictly_sorted(s),
    ensures
        inserted(inserted(s, v), v) == inserted(s, v),
{
    lemma_inserted(s, v);
    let once = inserted(s, v);
    assert(once.contains(v));
    lemma_inserted(once, v);
}

/// The order in which two statements are inserted makes no difference.
pub proof fn lemma_inserted_commutes(s: Seq<ImportView>, a: ImportView, b: ImportView)
    requires
        strictly_sorted(s),
    ensures
        inserted(inserted(s, a), b) == inserted(inserted(s, b), a),
{
    lemma_inserted(s, a);
    lemma_inserted(s, b);
    lemma_inserted(inserted(s, a), b);
    lemma_inserted(inserted(s, b), a);
    let ab = inserted(inserted(s, a), b);
    let ba = inserted(inserted(s, b), a);
    assert forall|v: ImportView| ab.contains(v) <==> ba.contains(v) by {
        assert(ab.contains(v) <==> (inserted(s, a).contains(v) || v == b));
        assert(ba.contains(v) <==> (inserted(s, b).contains(v) || v == a));
        assert(inserted(s, a).contains(v) <==> (s.contains(v) || v == a));
        assert(inserted(s, b).contains(v) <==> (s.contains(v) || v == b));
    }
    lemma_sorted_unique(ab, ba);
}

/// Whether the bytes `a` come before the bytes `b`.
fn bytes_precede(a: &[u8], b: &[u8]) -> (r: bool)
    ensures
        r == bytes_before(a@, b@),
{
    let mut i: usize = 0;
    assert(a@.skip(0) =~= a@);
    assert(b@.skip(0) =~= b@);
    while i < a.len() && i < b.len()
        invariant
            i <= a@.len(),
            i <= b@.len(),
            bytes_before(a@, b@) == bytes_before(a@.skip(i as int), b@.skip(i as int)),
        decreases a@.len() - i,
    {
        let ghost ra = a@.skip(i as int);
        let ghost rb = b@.skip(i as int);
        assert(ra[0] == a@[i as int]);
        assert(rb[0] == b@[i as int]);
        assert(ra.drop_first() =~= a@.skip(i + 1));
        assert(rb.drop_first() =~= b@.skip(i + 1));
        if a[i] != b[i] {
            return a[i] < b[i];
        }
        i += 1;
    }
    i < b.len()
}

impl ImportRequirement {
    /// The import as it stands between the parentheses of a Go import block.
    pub open spec fn spec_render(&self) -> Seq<char> {
        match self {
            ImportRequirement::Module { mod_name } => "\""@ + mod_name@ + "\""@,
            ImportRequirement::ModuleAll { mod_name } => ". \""@ + mod_name@ + "\""@,
        }
    }

    pub fn render(&self) -> (r: String)
        ensures
            r@ == self.spec_render(),
    {
        match self {
            ImportRequirement::Module { mod_name } => concat3("\"", mod_name.as_str(), "\""),
            ImportRequirement::ModuleAll { mod_name } => concat3(". \"", mod_name.as_str(), "\""),
        }
    }

    fn mod_name(&self) -> (r: &String)
        ensures
            r@ == self@.path,
    {
        match self {
            ImportRequirement::Module { mod_name } => mod_name,
            ImportRequirement::ModuleAll { mod_name } => mod_name,
        }
    }

    fn imports_all(&self) -> (r: bool)
        ensures
            r == self@.all,
    {
        match self {
            ImportRequirement::Module { .. } => false,
            ImportRequirement::ModuleAll { .. } => true,
        }
    }

    /// Whether this import is emitted before `other`.
    pub fn precedes(&self, other: &ImportRequirement) -> (r: bool)
        ensures
            r == import_before(self@, other@),
    {
        let all = self.imports_all();
        if all != other.imports_all() {
            !all
        } else {
            bytes_precede(self.mod_name().as_str().as_bytes(), other.mod_name().as_str().as_bytes())
        }
    }

    /// Whether this import says what `other` says.
    pub fn same_as(&self, other: &ImportRequirement) -> (r: bool)
        ensures
            r == (self@ == other@),
    {
        self.imports_all() == other.imports_all() && *self.mod_name() == *other.mod_name()
    }
}

/// The import statements collected during one generation pass: each once, in
/// the order in which they are emitted.
#[derive(Debug)]
pub struct ImportSet {
    items: Vec<ImportRequirement>,
}

impl View for ImportSet {
    type V = Seq<ImportView>;

    /// The collected import statements, in the order in which they are emitted.
    closed spec fn view(&self) -> Seq<ImportView> {
        self.items@.map_values(|r: ImportRequirement| r@)
    }
}

impl ImportSet {
    /// What every set is: sorted, so without duplicates.
    #[verifier::type_invariant]
    pub open spec fn sorted(&self) -> bool {
        strictly_sorted(self@)
    }

    /// The set with no import in it.
    pub fn new() -> (r: Self)
        ensures
            r@.len() == 0,
    {
        ImportSet { items: Vec::new() }
    }

    /// The number of different imports collected.
    pub fn len(&self) -> (r: usize)
        ensures
            r == self@.len(),
    {
        self.items.len()
    }

    /// Collects an import. One that is there already changes nothing; a new one
    /// takes its place in the order.
    pub fn add(&mut self, requirement: ImportRequirement)
        ensures
            final(self)@ == inserted(old(self)@, requirement@),
            strictly_sorted(final(self)@),
    {
        proof {
            use_type_invariant(&*self);
        }
        let ghost before = self@;
        let mut taken = ImportSet::new();
        core::mem::swap(self, &mut taken);
        let mut items = taken.items;
        let ghost views = items@.map_values(|r: ImportRequirement| r@);
        assert(views == before);
        let mut i: usize = 0;
        while i < items.len() && items[i].precedes(&requirement)
            invariant
                i <= items@.len(),
                items@.map_values(|r: ImportRequirement| r@) == before,
                strictly_sorted(before),
                forall|j: int| 0 <= j < i ==> import_before(#[trigger] before[j], requirement@),
            decreases items@.len() - i,
        {
            assert(before[i as int] == items@[i as int]@);
            i += 1;
        }
        assert forall|j: int| 0 <= j < i implies before[j] != requirement@ by {
            lemma_import_before_irreflexive(requirement@);
        }
        if i < items.len() && items[i].same_as(&requirement) {
            assert(before[i as int] == items@[i as int]@);
            assert(before[i as int] == requirement@);
            assert(before.contains(requirement@));
            proof {
                lemma_inserted(before, requirement@);
            }
            *self = ImportSet { items };
        } else {
            proof {
                if i < before.len() {
                    assert(before[i as int] == items@[i as int]@);
                    lemma_import_before_total(before[i as int], requirement@);
                    assert(import_before(requirement@, before[i as int]));
                    assert forall|j: int| i <= j < before.len() implies import_before(
                        requirement@,
                        #[trigger] before[j],
                    ) by {
                        if j > i {
                            assert(import_before(before[i as int], before[j]));
                            lemma_import_before_transitive(requirement@, before[i as int], before[j]);
                        }
                    }
                }
                assert forall|j: int| 0 <= j < before.len() implies before[j] != requirement@ by {
                    lemma_import_before_irreflexive(requirement@);
                }
            }
            items.insert(i, requirement);
            proof {
                let after = items@.map_values(|r: ImportRequirement| r@);
                assert(after =~= before.insert(i as int, requirement@));
                assert forall|p: int, q: int| 0 <= p < q < after.len() implies import_before(
                    #[trigger] after[p],
                    #[trigger] after[q],
                ) by {
                    if p < i && q > i {
                        assert(import_before(before[p], before[q - 1]));
                    } else if p < i && q < i {
                        assert(import_before(before[p], before[q]));
                    } else if p > i {
                        assert(import_before(before[p - 1], before[q - 1]));
                    }
                }
                assert forall|v: ImportView|
                    after.contains(v) <==> (before.contains(v) || v == requirement@) by {
                    if after.contains(v) {
                        let k = choose|k: int| 0 <= k < after.len() && after[k] == v;
                        if k < i {
                            assert(before[k] == v);
                        } else if k > i {
                            assert(before[k - 1] == v);
                        }
                    }
                    if before.contains(v) {
                        let k = choose|k: int| 0 <= k < before.len() && before[k] == v;
                        if k < i {
                            assert(after[k] == v);
                        } else {
                            assert(after[k + 1] == v);
                        }
                    }
                    if v == requirement@ {
                        assert(after[i as int] == v);
                    }
                }
                lemma_inserted(before, requirement@);
                lemma_sorted_unique(after, inserted(before, requirement@));
            }
            *self = ImportSet { items };
        }
    }

    /// The collected imports, in the order in which they are emitted. The same
    /// set gives the same list on every call.
    pub fn flush(&self) -> (r: Vec<ImportRequirement>)
        ensures
            r@.map_values(|q: ImportRequirement| q@) == self@,
            strictly_sorted(self@),
    {
        proof {
            use_type_invariant(self);
        }
        let mut out: Vec<ImportRequirement> = Vec::new();
        let mut i: usize = 0;
        while i < self.items.len()
            invariant
                i <= self.items@.len(),
                out@.len() == i,
                forall|j: int| 0 <= j < i ==> out@[j] == self.items@[j],
            decreases self.items@.len() - i,
        {
            out.push(self.items[i].clone());
            i += 1;
        }
        assert(out@ =~= self.items@);
        out
    }
}

} // verus!
