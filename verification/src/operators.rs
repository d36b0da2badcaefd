//! Operators and their precedence: groups of operators in order of precedence,
//! one order for binary and one for variadic operators, and the choice of the
//! operator at which a list is taken apart.

use vstd::prelude::*;

verus! {

#[derive(Clone, Copy, PartialEq, Eq, Structural, Debug)]
pub enum Associativity {
    Left,
    Right,
}

/// An operator that takes one value on each side.
#[derive(Clone, Copy, PartialEq, Eq, Structural, Debug)]
pub enum BinaryOperator {
    Add,
    Subtract,
    Multiply,
    Divide,
}

/// An operator that takes all the values on each side.
#[derive(Clone, Copy, PartialEq, Eq, Structural, Debug)]
pub enum VariadicOperator {
    Assign,
    Trait,
    Macro,
    Closure,
}

#[derive(Clone, Copy, PartialEq, Eq, Structural, Debug)]
pub enum Operator {
    Binary(BinaryOperator),
    Variadic(VariadicOperator),
}

impl Operator {
    pub open spec fn is_variadic(self) -> bool {
        self is Variadic
    }

    pub fn variadic(&self) -> (r: bool)
        ensures
            r == self.is_variadic(),
    {
        match self {
            Operator::Variadic(_) => true,
            Operator::Binary(_) => false,
        }
    }
}

/// Where a new group stands among the groups of its arity.
#[derive(Clone, Copy, PartialEq, Eq, Structural, Debug)]
pub enum PrecedenceGroupComparison {
    Highest,
    Lowest,
    HigherThan(usize),
    LowerThan(usize),
}

/// A group of operators of equal precedence.
pub struct PrecedenceGroup {
    pub id: usize,
    pub associativity: Associativity,
    pub operators: Vec<Operator>,
}

pub struct PrecedenceGroupView {
    pub id: usize,
    pub associativity: Associativity,
    pub operators: Seq<Operator>,
}

impl View for PrecedenceGroup {
    type V = PrecedenceGroupView;

    open spec fn view(&self) -> PrecedenceGroupView {
        PrecedenceGroupView {
            id: self.id,
            associativity: self.associativity,
            operators: self.operators@,
        }
    }
}

impl Clone for PrecedenceGroup {
    fn clone(&self) -> (r: Self)
        ensures
            r@ == self@,
    {
        let mut operators: Vec<Operator> = Vec::new();
        let mut i: usize = 0;
        while i < self.operators.len()
            invariant
                i <= self.operators.len(),
                operators@ == self.operators@.subrange(0, i as int),
            decreases self.operators.len() - i,
        {
            operators.push(self.operators[i]);
            assert(operators@ =~= self.operators@.subrange(0, i as int + 1));
            i += 1;
        }
        assert(operators@ =~= self.operators@);
        PrecedenceGroup { id: self.id, associativity: self.associativity, operators }
    }
}

pub open spec fn groups_view(groups: Seq<PrecedenceGroup>) -> Seq<PrecedenceGroupView> {
    Seq::new(groups.len(), |i: int| groups[i]@)
}

/// The index of the first group with `id` at or after `from`; the number of groups if there is none.
pub open spec fn position_from(groups: Seq<PrecedenceGroupView>, id: usize, from: int) -> int
    decreases groups.len() - from,
{
    if from < 0 || from >= groups.len() {
        groups.len() as int
    } else if groups[from].id == id {
        from
    } else {
        position_from(groups, id, from + 1)
    }
}

/// The index of the first group with `id`, if any.
pub open spec fn position_of(groups: Seq<PrecedenceGroupView>, id: usize) -> Option<int> {
    let p = position_from(groups, id, 0);
    if p < groups.len() {
        Some(p)
    } else {
        None
    }
}

/// The index at which a group that compares as `comparison` is inserted; `None`
/// where the group it is compared with is unknown.
pub open spec fn insertion_index(
    groups: Seq<PrecedenceGroupView>,
    comparison: PrecedenceGroupComparison,
) -> Option<int> {
    match comparison {
        PrecedenceGroupComparison::Highest => Some(0),
        PrecedenceGroupComparison::Lowest => Some(groups.len() as int),
        PrecedenceGroupComparison::HigherThan(other) => position_of(groups, other),
        PrecedenceGroupComparison::LowerThan(other) => match position_of(groups, other) {
            Some(p) => Some(p + 1),
            None => None,
        },
    }
}

/// The index of the first group at or after `from` that holds `operator`; the
/// number of groups if none does.
pub open spec fn rank_from(groups: Seq<PrecedenceGroupView>, operator: Operator, from: int) -> int
    decreases groups.len() - from,
{
    if from < 0 || from >= groups.len() {
        groups.len() as int
    } else if groups[from].operators.contains(operator) {
        from
    } else {
        rank_from(groups, operator, from + 1)
    }
}

/// The precedence of `operator` as a rank: 0 is the highest precedence, and an
/// operator that no group holds ranks below every group.
pub open spec fn rank_of(groups: Seq<PrecedenceGroupView>, operator: Operator) -> int {
    rank_from(groups, operator, 0)
}

/// The associativity of the group at `rank`; `Left` where there is no such group.
pub open spec fn associativity_at(groups: Seq<PrecedenceGroupView>, rank: int) -> Associativity {
    if 0 <= rank < groups.len() {
        groups[rank].associativity
    } else {
        Associativity::Left
    }
}

/// `groups` with `operator` added to the first group with `id`; unchanged if there is none.
pub open spec fn with_operator(
    groups: Seq<PrecedenceGroupView>,
    operator: Operator,
    id: usize,
) -> Seq<PrecedenceGroupView> {
    match position_of(groups, id) {
        Some(p) => groups.update(
            p,
            PrecedenceGroupView { operators: groups[p].operators.push(operator), ..groups[p] },
        ),
        None => groups,
    }
}

/// The precedence registry: the binary and the variadic groups, each from
/// highest to lowest precedence, and the identifier of the next group.
pub struct Precedence {
    pub binary: Vec<PrecedenceGroup>,
    pub variadic: Vec<PrecedenceGroup>,
    pub next_id: usize,
}

pub struct PrecedenceView {
    pub binary: Seq<PrecedenceGroupView>,
    pub variadic: Seq<PrecedenceGroupView>,
    pub next_id: usize,
}

impl View for Precedence {
    type V = PrecedenceView;

    open spec fn view(&self) -> PrecedenceView {
        PrecedenceView {
            binary: groups_view(self.binary@),
            variadic: groups_view(self.variadic@),
            next_id: self.next_id,
        }
    }
}

impl PrecedenceView {
    pub open spec fn empty() -> PrecedenceView {
        PrecedenceView { binary: Seq::empty(), variadic: Seq::empty(), next_id: 0 }
    }

    /// The groups of the arity of `operator`.
    pub open spec fn groups_for(self, operator: Operator) -> Seq<PrecedenceGroupView> {
        if operator.is_variadic() {
            self.variadic
        } else {
            self.binary
        }
    }

    pub open spec fn rank(self, operator: Operator) -> int {
        rank_of(self.groups_for(operator), operator)
    }

    pub open spec fn associativity(self, operator: Operator) -> Associativity {
        associativity_at(self.groups_for(operator), self.rank(operator))
    }

    /// The registry after a group was asked for, and the new group's identifier.
    /// Nothing changes and there is no identifier where the comparison names an
    /// unknown group or the identifiers have run out.
    pub open spec fn with_group(
        self,
        variadic: bool,
        associativity: Associativity,
        comparison: PrecedenceGroupComparison,
    ) -> (PrecedenceView, Option<usize>) {
        let groups = if variadic {
            self.variadic
        } else {
            self.binary
        };
        match insertion_index(groups, comparison) {
            Some(index) if self.next_id < usize::MAX => {
                let group = PrecedenceGroupView {
                    id: self.next_id,
                    associativity,
                    operators: Seq::empty(),
                };
                let inserted = groups.insert(index, group);
                let next_id = (self.next_id + 1) as usize;
                if variadic {
                    (PrecedenceView { variadic: inserted, next_id, ..self }, Some(self.next_id))
                } else {
                    (PrecedenceView { binary: inserted, next_id, ..self }, Some(self.next_id))
                }
            },
            _ => (self, None),
        }
    }

    /// The registry with `operator` added to the group `id` of its arity.
    pub open spec fn with_operator(self, operator: Operator, id: usize) -> PrecedenceView {
        if operator.is_variadic() {
            PrecedenceView { variadic: with_operator(self.variadic, operator, id), ..self }
        } else {
            PrecedenceView { binary: with_operator(self.binary, operator, id), ..self }
        }
    }
}

fn find_group(groups: &Vec<PrecedenceGroup>, id: usize) -> (r: Option<usize>)
    ensures
        match r {
            Some(p) => position_of(groups_view(groups@), id) == Some(p as int) && p < groups.len(),
            None => position_of(groups_view(groups@), id) is None,
        },
{
    let mut i: usize = 0;
    while i < groups.len()
        invariant
            i <= groups.len(),
            position_from(groups_view(groups@), id, 0) == position_from(
                groups_view(groups@),
                id,
                i as int,
            ),
        decreases groups.len() - i,
    {
        if groups[i].id == id {
            return Some(i);
        }
        i += 1;
    }
    None
}

fn group_holds(group: &PrecedenceGroup, operator: Operator) -> (r: bool)
    ensures
        r == group@.operators.contains(operator),
{
    let mut i: usize = 0;
    while i < group.operators.len()
        invariant
            i <= group.operators.len(),
            forall|j: int| 0 <= j < i ==> group.operators@[j] != operator,
        decreases group.operators.len() - i,
    {
        if group.operators[i] == operator {
            return true;
        }
        i += 1;
    }
    false
}

fn clone_groups(groups: &Vec<PrecedenceGroup>) -> (r: Vec<PrecedenceGroup>)
    ensures
        groups_view(r@) == groups_view(groups@),
{
    let mut r: Vec<PrecedenceGroup> = Vec::new();
    let mut i: usize = 0;
    while i < groups.len()
        invariant
            i <= groups.len(),
            r.len() == i,
            forall|j: int| 0 <= j < i ==> r[j]@ == groups[j]@,
        decreases groups.len() - i,
    {
        r.push(groups[i].clone());
        i += 1;
    }
    assert(groups_view(r@) =~= groups_view(groups@));
    r
}

fn insert_group(
    groups: &mut Vec<PrecedenceGroup>,
    comparison: PrecedenceGroupComparison,
    group: PrecedenceGroup,
) -> (r: bool)
    ensures
        match insertion_index(groups_view(old(groups)@), comparison) {
            Some(index) => r && groups_view(final(groups)@) == groups_view(old(groups)@).insert(
                index,
                group@,
            ),
            None => !r && groups_view(final(groups)@) == groups_view(old(groups)@),
        },
{
    let index: usize = match comparison {
        PrecedenceGroupComparison::Highest => 0,
        PrecedenceGroupComparison::Lowest => groups.len(),
        PrecedenceGroupComparison::HigherThan(other) => match find_group(groups, other) {
            Some(p) => p,
            None => {
                return false;
            },
        },
        PrecedenceGroupComparison::LowerThan(other) => match find_group(groups, other) {
            Some(p) => p + 1,
            None => {
                return false;
            },
        },
    };
    groups.insert(index, group);
    assert(groups_view(groups@) =~= groups_view(old(groups)@).insert(index as int, group@));
    true
}

fn add_to_group(groups: &mut Vec<PrecedenceGroup>, operator: Operator, id: usize)
    ensures
        groups_view(final(groups)@) == with_operator(groups_view(old(groups)@), operator, id),
{
    match find_group(groups, id) {
        Some(p) => {
            let mut group = groups[p].clone();
            group.operators.push(operator);
            groups.set(p, group);
            assert(groups_view(groups@) =~= with_operator(groups_view(old(groups)@), operator, id));
        },
        None => {},
    }
}

fn rank_in(groups: &Vec<PrecedenceGroup>, operator: Operator) -> (r: usize)
    ensures
        r == rank_of(groups_view(groups@), operator),
        r <= groups.len(),
{
    let mut i: usize = 0;
    while i < groups.len()
        invariant
            i <= groups.len(),
            rank_from(groups_view(groups@), operator, 0) == rank_from(
                groups_view(groups@),
                operator,
                i as int,
            ),
        decreases groups.len() - i,
    {
        if group_holds(&groups[i], operator) {
            return i;
        }
        i += 1;
    }
    groups.len()
}

impl Clone for Precedence {
    fn clone(&self) -> (r: Self)
        ensures
            r@ == self@,
    {
        Precedence {
            binary: clone_groups(&self.binary),
            variadic: clone_groups(&self.variadic),
            next_id: self.next_id,
        }
    }
}

impl Precedence {
    /// A registry without groups.
    pub fn new() -> (r: Self)
        ensures
            r@ == PrecedenceView::empty(),
    {
        let r = Precedence { binary: Vec::new(), variadic: Vec::new(), next_id: 0 };
        assert(r@.binary =~= Seq::empty());
        assert(r@.variadic =~= Seq::empty());
        r
    }

    /// Creates a group of binary (`variadic == false`) or variadic operators
    /// with `associativity`, placed as `comparison` says, and returns its identifier.
    pub fn precedence_group(
        &mut self,
        variadic: bool,
        associativity: Associativity,
        comparison: PrecedenceGroupComparison,
    ) -> (r: Option<usize>)
        ensures
            (final(self)@, r) == old(self)@.with_group(variadic, associativity, comparison),
    {
        if self.next_id == usize::MAX {
            return None;
        }
        let id: usize = self.next_id;
        let group = PrecedenceGroup { id, associativity, operators: Vec::new() };
        assert(group@.operators =~= Seq::empty());
        let inserted = if variadic {
            insert_group(&mut self.variadic, comparison, group)
        } else {
            insert_group(&mut self.binary, comparison, group)
        };
        if inserted {
            self.next_id = id + 1;
            Some(id)
        } else {
            None
        }
    }

    /// Adds `operator` to the group `group` of its arity; nothing changes if there is no such group.
    pub fn add_operator(&mut self, operator: Operator, group: usize)
        ensures
            final(self)@ == old(self)@.with_operator(operator, group),
    {
        if operator.variadic() {
            add_to_group(&mut self.variadic, operator, group);
        } else {
            add_to_group(&mut self.binary, operator, group);
        }
    }

    /// The rank of `operator` among the groups of its arity: 0 is the highest precedence.
    pub fn rank(&self, operator: Operator) -> (r: usize)
        ensures
            r == self@.rank(operator),
    {
        if operator.variadic() {
            rank_in(&self.variadic, operator)
        } else {
            rank_in(&self.binary, operator)
        }
    }

    /// The associativity of the group that holds `operator`; `Left` where none does.
    pub fn associativity(&self, operator: Operator) -> (r: Associativity)
        ensures
            r == self@.associativity(operator),
    {
        if operator.variadic() {
            let rank = rank_in(&self.variadic, operator);
            if rank < self.variadic.len() {
                self.variadic[rank].associativity
            } else {
                Associativity::Left
            }
        } else {
            let rank = rank_in(&self.binary, operator);
            if rank < self.binary.len() {
                self.binary[rank].associativity
            } else {
                Associativity::Left
            }
        }
    }
}

/// An operator found in a list, with its position there.
#[derive(Clone, Copy, PartialEq, Eq, Structural, Debug)]
pub struct Occurrence {
    pub position: usize,
    pub operator: Operator,
}

/// Whether any of `occurrences` is of a variadic operator.
pub open spec fn any_variadic(occurrences: Seq<Occurrence>) -> bool {
    exists|i: int| 0 <= i < occurrences.len() && occurrences[i].operator.is_variadic()
}

/// Whether occurrence `i` competes: where a variadic operator occurs, only the
/// variadic ones do.
pub open spec fn competes(occurrences: Seq<Occurrence>, i: int) -> bool {
    &&& 0 <= i < occurrences.len()
    &&& any_variadic(occurrences) ==> occurrences[i].operator.is_variadic()
}

/// Whether, among occurrences of the precedence of `operator`, the first one is
/// taken. A binary operator takes the values next to it, so a left-associative
/// one is taken first from the left; a variadic operator takes all the values
/// of each side, so a right-associative one is taken first from the left too.
pub open spec fn takes_first(precedence: PrecedenceView, operator: Operator) -> bool {
    if operator.is_variadic() {
        precedence.associativity(operator) == Associativity::Right
    } else {
        precedence.associativity(operator) == Associativity::Left
    }
}

/// Whether the operator to apply is occurrence `k`: it competes, none that
/// competes has a higher precedence, and among those of its precedence it is
/// the first or the last, as the associativity asks.
pub open spec fn is_choice(occurrences: Seq<Occurrence>, precedence: PrecedenceView, k: int) -> bool {
    &&& competes(occurrences, k)
    &&& forall|j: int| #[trigger]
        competes(occurrences, j) ==> precedence.rank(occurrences[k].operator) <= precedence.rank(
            occurrences[j].operator,
        )
    &&& forall|j: int|
        #[trigger] competes(occurrences, j) && precedence.rank(occurrences[j].operator)
            == precedence.rank(occurrences[k].operator) ==> if takes_first(
            precedence,
            occurrences[k].operator,
        ) {
            k <= j
        } else {
            j <= k
        }
}

/// The occurrence to apply, where there is any.
pub open spec fn choice(occurrences: Seq<Occurrence>, precedence: PrecedenceView) -> int {
    choose|k: int| is_choice(occurrences, precedence, k)
}

/// Operators of one precedence share a group, hence an associativity.
pub proof fn lemma_equal_rank_equal_direction(precedence: PrecedenceView, a: Operator, b: Operator)
    requires
        a.is_variadic() == b.is_variadic(),
        precedence.rank(a) == precedence.rank(b),
    ensures
        takes_first(precedence, a) == takes_first(precedence, b),
{
}

/// For a fixed registry and list the operator position chosen is unique: two
/// occurrences that both qualify as the choice are the same occurrence.
pub proof fn lemma_choice_is_unique(
    occurrences: Seq<Occurrence>,
    precedence: PrecedenceView,
    k1: int,
    k2: int,
)
    requires
        is_choice(occurrences, precedence, k1),
        is_choice(occurrences, precedence, k2),
    ensures
        k1 == k2,
        choice(occurrences, precedence) == k1,
{
    assert(competes(occurrences, k1));
    assert(competes(occurrences, k2));
    let a = occurrences[k1].operator;
    let b = occurrences[k2].operator;
    assert(precedence.rank(a) == precedence.rank(b));
    assert(a.is_variadic() == b.is_variadic());
    lemma_equal_rank_equal_direction(precedence, a, b);
    assert(k1 == k2);
    let c = choice(occurrences, precedence);
    assert(is_choice(occurrences, precedence, c));
    assert(competes(occurrences, c));
    let d = occurrences[c].operator;
    assert(precedence.rank(a) == precedence.rank(d));
    assert(a.is_variadic() == d.is_variadic());
    lemma_equal_rank_equal_direction(precedence, a, d);
}

/// Picks the operator to apply first: `None` exactly when no operator occurs.
pub fn choose_operator(occurrences: &Vec<Occurrence>, precedence: &Precedence) -> (r: Option<usize>)
    ensures
        r is None <==> occurrences.len() == 0,
        r matches Some(k) ==> is_choice(occurrences@, precedence@, k as int) && k
            == choice(occurrences@, precedence@),
{
    let n: usize = occurrences.len();
    if n == 0 {
        return None;
    }
    let mut variadic: bool = false;
    let mut i: usize = 0;
    while i < n
        invariant
            i <= n,
            n == occurrences.len(),
            variadic == any_variadic(occurrences@.subrange(0, i as int)),
        decreases n - i,
    {
        let here = occurrences[i].operator.variadic();
        proof {
            let before = occurrences@.subrange(0, i as int);
            let after = occurrences@.subrange(0, i as int + 1);
            if any_variadic(before) {
                let w = choose|w: int| 0 <= w < before.len() && before[w].operator.is_variadic();
                assert(after[w].operator.is_variadic());
            }
            if here {
                assert(after[i as int].operator.is_variadic());
            }
            if any_variadic(after) {
                let w = choose|w: int| 0 <= w < after.len() && after[w].operator.is_variadic();
                if w < i {
                    assert(before[w].operator.is_variadic());
                }
            }
        }
        variadic = variadic || here;
        i += 1;
    }
    assert(occurrences@.subrange(0, n as int) =~= occurrences@);
    let mut best: Option<usize> = None;
    let mut best_rank: usize = 0;
    let mut j: usize = 0;
    while j < n
        invariant
            j <= n,
            n == occurrences.len(),
            variadic == any_variadic(occurrences@),
            best is None ==> forall|m: int| 0 <= m < j ==> !competes(occurrences@, m),
            best matches Some(k) ==> {
                &&& k < j
                &&& competes(occurrences@, k as int)
                &&& best_rank == precedence@.rank(occurrences[k as int].operator)
                &&& forall|m: int|
                    0 <= m < j && #[trigger] competes(occurrences@, m) ==> best_rank
                        <= precedence@.rank(occurrences[m].operator)
                &&& forall|m: int|
                    0 <= m < j && #[trigger] competes(occurrences@, m) && precedence@.rank(
                        occurrences[m].operator,
                    ) == best_rank ==> if takes_first(precedence@, occurrences[k as int].operator) {
                        k <= m
                    } else {
                        m <= k
                    }
            },
        decreases n - j,
    {
        let operator = occurrences[j].operator;
        if !variadic || operator.variadic() {
            assert(competes(occurrences@, j as int));
            let rank = precedence.rank(operator);
            match best {
                None => {
                    best = Some(j);
                    best_rank = rank;
                },
                Some(k) => {
                    proof {
                        if rank == best_rank {
                            lemma_equal_rank_equal_direction(
                                precedence@,
                                operator,
                                occurrences[k as int].operator,
                            );
                        }
                    }
                    if rank < best_rank {
                        best = Some(j);
                        best_rank = rank;
                    } else if rank == best_rank {
                        let first = if operator.variadic() {
                            precedence.associativity(operator) == Associativity::Right
                        } else {
                            precedence.associativity(operator) == Associativity::Left
                        };
                        if !first {
                            best = Some(j);
                        }
                    }
                },
            }
        } else {
            assert(!competes(occurrences@, j as int));
        }
        j += 1;
    }
    proof {
        if best is None {
            if variadic {
                let w = choose|w: int|
                    0 <= w < occurrences@.len() && occurrences@[w].operator.is_variadic();
                assert(competes(occurrences@, w));
            } else {
                assert(competes(occurrences@, 0));
            }
        }
        let k = best.unwrap() as int;
        assert(is_choice(occurrences@, precedence@, k));
        lemma_choice_is_unique(occurrences@, precedence@, k, k);
    }
    best
}

} // verus!
