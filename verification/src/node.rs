//! Addressing and rebuilding the node tree.
//!
//! A node is reached from the root by a stack of child indices. Event
//! dispatch looks a node up by its id, depth first and children in order,
//! and then messages bubble back along the stack towards the root. When the
//! tree is built anew, the children that a container's component was given
//! are placed where its container path says, and each new node takes over
//! the id and state of the previous node with its key, or takes a fresh id.
use vstd::prelude::*;

verus! {

/// The ids of a node and of all its descendants, in tree form.
#[derive(Debug)]
pub struct NodeIdTree {
    pub id: u64,
    pub children: Vec<NodeIdTree>,
}

impl NodeIdTree {
    /// The node reached from `self` by following the child indices in `path`.
    pub open spec fn at_path(self, path: Seq<usize>) -> Option<NodeIdTree>
        decreases path.len(),
    {
        if path.len() == 0 {
            Some(self)
        } else {
            let i = path[0] as int;
            if 0 <= i < self.children@.len() {
                self.children@[i].at_path(path.drop_first())
            } else {
                None
            }
        }
    }

    /// The path to the first node with id `target`, visiting each node before its
    /// children and the children in order.
    pub open spec fn find_path(self, target: u64) -> Option<Seq<usize>>
        decreases self, 1int, 0int,
    {
        if self.id == target {
            Some(Seq::empty())
        } else {
            self.find_from_child(0, target)
        }
    }

    /// The path to the first node with id `target` below the children `i..` of `self`.
    pub open spec fn find_from_child(self, i: int, target: u64) -> Option<Seq<usize>>
        decreases self, 0int, self.children@.len() - i,
    {
        if i < 0 || i >= self.children@.len() || i > usize::MAX {
            None
        } else {
            proof {
                assert(decreases_to!(self => self.children@[i]));
            }
            match self.children@[i].find_path(target) {
                Some(p) => Some(seq![i as usize] + p),
                None => self.find_from_child(i + 1, target),
            }
        }
    }
}


impl NodeIdTree {
    /// The stack of child indices that leads from `self` to the first node with id
    /// `target` (see [`NodeIdTree::find_path`]), or `None` when no node has that id.
    pub fn get_target_stack(&self, target: u64) -> (r: Option<Vec<usize>>)
        ensures
            match self.find_path(target) {
                Some(p) => r matches Some(v) && v@ == p,
                None => r is None,
            },
        decreases self,
    {
        if self.id == target {
            return Some(Vec::new());
        }
        let n = self.children.len();
        let mut i: usize = 0;
        while i < n
            invariant
                n == self.children@.len(),
                i <= n,
                self.id != target,
                self.find_path(target) == self.find_from_child(i as int, target),
            decreases n - i,
        {
            proof {
                assert(decreases_to!(self => self.children@[i as int]));
            }
            match self.children[i].get_target_stack(target) {
                Some(rest) => {
                    let mut v: Vec<usize> = Vec::new();
                    v.push(i);
                    let mut k: usize = 0;
                    while k < rest.len()
                        invariant
                            k <= rest@.len(),
                            v@ == seq![i] + rest@.take(k as int),
                        decreases rest@.len() - k,
                    {
                        v.push(rest[k]);
                        k = k + 1;
                        proof {
                            assert(v@ =~= seq![i] + rest@.take(k as int));
                        }
                    }
                    proof {
                        assert(rest@.take(rest@.len() as int) =~= rest@);
                    }
                    return Some(v);
                },
                None => {},
            }
            i = i + 1;
        }
        None
    }

    /// The node reached by following the child indices in `target` from `self`.
    pub fn get_target_from_stack<'a>(&'a self, target: &[usize]) -> (r: &'a NodeIdTree)
        requires
            self.at_path(target@) is Some,
        ensures
            self.at_path(target@) == Some(*r),
    {
        let mut current: &NodeIdTree = self;
        let mut k: usize = 0;
        proof {
            assert(target@.skip(0) =~= target@);
        }
        while k < target.len()
            invariant
                k <= target@.len(),
                self.at_path(target@) is Some,
                self.at_path(target@) == current.at_path(target@.skip(k as int)),
            decreases target@.len() - k,
        {
            let t = target[k];
            proof {
                assert(target@.skip(k as int).drop_first() =~= target@.skip(k + 1));
            }
            current = &current.children[t];
            k = k + 1;
        }
        proof {
            assert(target@.skip(k as int) =~= Seq::<usize>::empty());
        }
        current
    }
}

/// The path found for an id leads to a node with that id.
pub proof fn lemma_found_path_reaches_target(tree: NodeIdTree, target: u64)
    ensures
        tree.find_path(target) matches Some(p) ==> (tree.at_path(p) matches Some(n) && n.id
            == target),
    decreases tree, 1int, 0int,
{
    if tree.id != target {
        lemma_found_from_child_reaches_target(tree, 0, target);
    }
}

proof fn lemma_found_from_child_reaches_target(tree: NodeIdTree, i: int, target: u64)
    ensures
        tree.find_from_child(i, target) matches Some(p) ==> (tree.at_path(p) matches Some(n)
            && n.id == target),
    decreases tree, 0int, tree.children@.len() - i,
{
    if 0 <= i < tree.children@.len() && i <= usize::MAX {
        assert(decreases_to!(tree => tree.children@[i]));
        lemma_found_path_reaches_target(tree.children@[i], target);
        match tree.children@[i].find_path(target) {
            Some(p) => {
                let q = seq![i as usize] + p;
                assert(q[0] == i as usize);
                assert(q.drop_first() =~= p);
                assert(tree.find_from_child(i, target) == Some(q));
                assert(tree.at_path(q) == tree.children@[i].at_path(p));
            },
            None => {
                lemma_found_from_child_reaches_target(tree, i + 1, target);
            },
        }
    }
}

/// When no path is found for an id, no node of the tree has that id.
pub proof fn lemma_no_path_means_absent(tree: NodeIdTree, target: u64, p: Seq<usize>)
    requires
        tree.find_path(target) is None,
    ensures
        tree.at_path(p) matches Some(n) ==> n.id != target,
    decreases p.len(),
{
    if p.len() > 0 {
        let i = p[0] as int;
        if 0 <= i < tree.children@.len() {
            assert(i <= usize::MAX);
            lemma_not_found_from_child(tree, 0, i, target);
            lemma_no_path_means_absent(tree.children@[i], target, p.drop_first());
        }
    }
}

proof fn lemma_not_found_from_child(tree: NodeIdTree, i: int, j: int, target: u64)
    requires
        0 <= i <= j < tree.children@.len(),
        j <= usize::MAX,
        tree.find_from_child(i, target) is None,
    ensures
        tree.children@[j].find_path(target) is None,
    decreases j - i,
{
    if i < j {
        lemma_not_found_from_child(tree, i + 1, j, target);
    }
}


/// The index of the first of the previous children whose key is `key`: the
/// one whose state a new child with that key takes over.
pub fn matching_child(previous_keys: &[u64], key: u64) -> (r: Option<usize>)
    ensures
        match r {
            Some(i) => i < previous_keys@.len() && previous_keys@[i as int] == key && forall|j: int|
                0 <= j < i ==> previous_keys@[j] != key,
            None => forall|j: int| 0 <= j < previous_keys@.len() ==> previous_keys@[j] != key,
        },
{
    let mut i: usize = 0;
    while i < previous_keys.len()
        invariant
            i <= previous_keys@.len(),
            forall|j: int| 0 <= j < i ==> previous_keys@[j] != key,
        decreases previous_keys@.len() - i,
    {
        if previous_keys[i] == key {
            return Some(i);
        }
        i = i + 1;
    }
    None
}

/// For each new child, by its key, the previous child it takes over from.
pub fn match_children(previous_keys: &[u64], keys: &[u64]) -> (r: Vec<Option<usize>>)
    ensures
        r@.len() == keys@.len(),
        forall|k: int|
            0 <= k < keys@.len() ==> match #[trigger] r@[k] {
                Some(i) => i < previous_keys@.len() && previous_keys@[i as int] == keys@[k]
                    && forall|j: int| 0 <= j < i ==> previous_keys@[j] != keys@[k],
                None => forall|j: int|
                    0 <= j < previous_keys@.len() ==> previous_keys@[j] != keys@[k],
            },
{
    let mut r: Vec<Option<usize>> = Vec::new();
    let mut k: usize = 0;
    while k < keys.len()
        invariant
            k <= keys@.len(),
            r@.len() == k,
            forall|m: int|
                0 <= m < k ==> match #[trigger] r@[m] {
                    Some(i) => i < previous_keys@.len() && previous_keys@[i as int] == keys@[m]
                        && forall|j: int| 0 <= j < i ==> previous_keys@[j] != keys@[m],
                    None => forall|j: int|
                        0 <= j < previous_keys@.len() ==> previous_keys@[j] != keys@[m],
                },
        decreases keys@.len() - k,
    {
        let m = matching_child(previous_keys, keys[k]);
        r.push(m);
        k = k + 1;
    }
    r
}


/// What building the tree anew asks of a node's component.
#[derive(Debug, Clone, Copy, PartialEq, Eq, Structural)]
pub enum ViewAction {
    /// The node `id` is new: its component is set up.
    Init(u64),
    /// The node `id` existed before: its component takes over the previous state.
    TakeState(u64),
    /// The node `id` existed before with other properties: its component is told.
    NewProps(u64),
}

/// A node of a freshly built tree: its id (assigned by [`reconcile`]), its key
/// among its siblings, the hash of its component's properties, the event
/// kinds its component registers for, and its children.
#[derive(Debug)]
pub struct ViewNode {
    pub id: u64,
    pub key: u64,
    pub props_hash: u64,
    pub registrations: Vec<u64>,
    pub children: Vec<ViewNode>,
}

/// The abstract node tree.
#[verifier::ext_equal]
pub ghost struct ViewModel {
    pub id: u64,
    pub key: u64,
    pub props_hash: u64,
    pub registrations: Seq<u64>,
    pub children: Seq<ViewModel>,
}

impl ViewNode {
    /// The abstract tree.
    pub open spec fn model(self) -> ViewModel
        decreases self,
    {
        ViewModel {
            id: self.id,
            key: self.key,
            props_hash: self.props_hash,
            registrations: self.registrations@,
            children: Seq::new(
                self.children@.len(),
                |i: int|
                    if 0 <= i < self.children@.len() {
                        self.children@[i].model()
                    } else {
                        ViewModel {
                            id: 0,
                            key: 0,
                            props_hash: 0,
                            registrations: Seq::empty(),
                            children: Seq::empty(),
                        }
                    },
            ),
        }
    }
}

/// The abstract tree of an optional node.
pub open spec fn opt_model(n: Option<&ViewNode>) -> Option<ViewModel> {
    match n {
        Some(v) => Some(v.model()),
        None => None,
    }
}

/// The first of `prevs`, from position `j` on, whose key is `key`.
pub open spec fn first_keyed_from(prevs: Seq<ViewModel>, key: u64, j: int) -> Option<ViewModel>
    decreases prevs.len() - j,
{
    if j < 0 || j >= prevs.len() {
        None
    } else if prevs[j].key == key {
        Some(prevs[j])
    } else {
        first_keyed_from(prevs, key, j + 1)
    }
}

/// Each registration of node `id`, paired with it.
pub open spec fn paired(regs: Seq<u64>, id: u64) -> Seq<(u64, u64)> {
    regs.map_values(|r: u64| (r, id))
}

/// The ids after `next`, one per fresh node, counted as an atomic counter does.
pub open spec fn after(next: u64) -> u64 {
    if next == u64::MAX { 0 } else { (next + 1) as u64 }
}

/// What building the tree anew gives: the tree with its ids, what to ask of
/// the components in order, the registrations in order, and the next fresh id.
pub ghost struct Reconciled {
    pub node: ViewModel,
    pub actions: Seq<ViewAction>,
    pub registrations: Seq<(u64, u64)>,
    pub next: u64,
}

/// Building node `n` anew where the previous tree had `prev` (the previous
/// sibling with its key) and the next fresh id is `next`: a node that existed
/// keeps its id and takes over its state, and hears of new properties when
/// their hash changed; a new node takes a fresh id and is set up. Then each
/// child is built against the first previous child with its key. The
/// registrations come children first, then the node's own.
pub open spec fn reconciled(n: ViewModel, prev: Option<ViewModel>, next: u64) -> Reconciled
    decreases n, 1int, 0int,
{
    let id = match prev {
        Some(p) => p.id,
        None => next,
    };
    let acts = match prev {
        Some(p) => if p.props_hash != n.props_hash {
            seq![ViewAction::TakeState(p.id), ViewAction::NewProps(p.id)]
        } else {
            seq![ViewAction::TakeState(p.id)]
        },
        None => seq![ViewAction::Init(next)],
    };
    let next1 = match prev {
        Some(_) => next,
        None => after(next),
    };
    let prevs = match prev {
        Some(p) => p.children,
        None => Seq::empty(),
    };
    let c = reconciled_children(
        n,
        prevs,
        0,
        Reconciled {
            node: ViewModel { id, children: Seq::empty(), ..n },
            actions: acts,
            registrations: Seq::empty(),
            next: next1,
        },
    );
    Reconciled { registrations: c.registrations + paired(n.registrations, id), ..c }
}

/// Building the children `i..` of `n` after `acc`.
pub open spec fn reconciled_children(n: ViewModel, prevs: Seq<ViewModel>, i: int, acc: Reconciled) -> Reconciled
    decreases n, 0int, n.children.len() - i,
{
    if i < 0 || i >= n.children.len() {
        acc
    } else {
        proof {
            assert(decreases_to!(n => n.children[i]));
        }
        let r = reconciled(n.children[i], first_keyed_from(prevs, n.children[i].key, 0), acc.next);
        reconciled_children(
            n,
            prevs,
            i + 1,
            Reconciled {
                node: ViewModel { children: acc.node.children.push(r.node), ..acc.node },
                actions: acc.actions + r.actions,
                registrations: acc.registrations + r.registrations,
                next: r.next,
            },
        )
    }
}

proof fn lemma_first_keyed(prevs: Seq<ViewModel>, key: u64, i: int, j: int)
    requires
        0 <= j <= i <= prevs.len(),
        forall|k: int| j <= k < i ==> prevs[k].key != key,
    ensures
        first_keyed_from(prevs, key, j) == first_keyed_from(prevs, key, i),
    decreases i - j,
{
    if j < i {
        lemma_first_keyed(prevs, key, i, j + 1);
    }
}


/// The previous child that a new child takes over from is the first previous
/// child with its key: it has the key and no earlier previous child has it;
/// there is none exactly when no previous child has the key.
pub proof fn lemma_takes_over_the_first_with_its_key(prevs: Seq<ViewModel>, key: u64)
    ensures
        first_keyed_from(prevs, key, 0) matches Some(pc) ==> exists|i: int|
            0 <= i < prevs.len() && prevs[i] == pc && pc.key == key && forall|j: int|
                0 <= j < i ==> #[trigger] prevs[j].key != key,
        first_keyed_from(prevs, key, 0) is None <==> forall|j: int|
            0 <= j < prevs.len() ==> #[trigger] prevs[j].key != key,
{
    lemma_first_keyed_from_is_first(prevs, key, 0);
}

proof fn lemma_first_keyed_from_is_first(prevs: Seq<ViewModel>, key: u64, j: int)
    requires
        0 <= j,
    ensures
        first_keyed_from(prevs, key, j) matches Some(pc) ==> exists|i: int|
            j <= i < prevs.len() && prevs[i] == pc && pc.key == key && forall|k: int|
                j <= k < i ==> #[trigger] prevs[k].key != key,
        first_keyed_from(prevs, key, j) is None <==> forall|k: int|
            j <= k < prevs.len() ==> #[trigger] prevs[k].key != key,
    decreases prevs.len() - j,
{
    if j < prevs.len() {
        lemma_first_keyed_from_is_first(prevs, key, j + 1);
        if prevs[j].key != key {
            if let Some(pc) = first_keyed_from(prevs, key, j + 1) {
                let i = choose|i: int|
                    j + 1 <= i < prevs.len() && prevs[i] == pc && pc.key == key && forall|k: int|
                        j + 1 <= k < i ==> #[trigger] prevs[k].key != key;
                assert forall|k: int| j <= k < i implies #[trigger] prevs[k].key != key by {
                    if k > j {
                        assert(j + 1 <= k < i);
                    }
                }
            }
        } else {
            assert(prevs[j].key == key);
        }
    }
}

/// The keys of `nodes`, in order.
fn keys_of(nodes: &Vec<ViewNode>) -> (r: Vec<u64>)
    ensures
        r@.len() == nodes@.len(),
        forall|j: int| 0 <= j < r@.len() ==> r@[j] == nodes@[j].key,
{
    let mut r: Vec<u64> = Vec::new();
    let mut i: usize = 0;
    while i < nodes.len()
        invariant
            i <= nodes@.len(),
            r@.len() == i,
            forall|j: int| 0 <= j < i ==> r@[j] == nodes@[j].key,
        decreases nodes@.len() - i,
    {
        r.push(nodes[i].key);
        i = i + 1;
    }
    r
}

/// Builds `node` anew against the previous tree's `prev`: gives each node its
/// id, taking fresh ones from `next_id`; appends the registrations, paired
/// with their node's id, to `registrations`; and returns what to ask of the
/// components, in order (see [`reconciled`]).
pub fn reconcile(
    node: &mut ViewNode,
    prev: Option<&ViewNode>,
    next_id: &mut u64,
    registrations: &mut Vec<(u64, u64)>,
) -> (actions: Vec<ViewAction>)
    ensures
        ({
            let r = reconciled(old(node).model(), opt_model(prev), *old(next_id));
            &&& final(node).model() == r.node
            &&& actions@ == r.actions
            &&& final(registrations)@ == old(registrations)@ + r.registrations
            &&& *final(next_id) == r.next
        }),
    decreases *old(node),
{
    let ghost m0 = node.model();
    let ghost regs0 = registrations@;
    let mut actions: Vec<ViewAction> = Vec::new();
    let mut prev_keys: Vec<u64> = Vec::new();
    match prev {
        Some(p) => {
            node.id = p.id;
            actions.push(ViewAction::TakeState(p.id));
            if p.props_hash != node.props_hash {
                actions.push(ViewAction::NewProps(p.id));
            }
            prev_keys = keys_of(&p.children);
        },
        None => {
            let id = new_node_id(next_id);
            node.id = id;
            actions.push(ViewAction::Init(id));
        },
    }
    let ghost prevs = match opt_model(prev) {
        Some(p) => p.children,
        None => Seq::<ViewModel>::empty(),
    };
    let ghost acc0 = Reconciled {
        node: ViewModel { id: node.id, children: Seq::empty(), ..m0 },
        actions: actions@,
        registrations: Seq::empty(),
        next: *next_id,
    };
    let ghost goal = reconciled_children(m0, prevs, 0, acc0);
    let ghost rr = reconciled(m0, opt_model(prev), *old(next_id));
    proof {
        match prev {
            Some(p) => {
                if p.props_hash != node.props_hash {
                    assert(actions@ =~= seq![ViewAction::TakeState(p.id), ViewAction::NewProps(p.id)]);
                } else {
                    assert(actions@ =~= seq![ViewAction::TakeState(p.id)]);
                }
            },
            None => {
                assert(actions@ =~= seq![ViewAction::Init(*old(next_id))]);
            },
        }
        assert(rr == Reconciled { registrations: goal.registrations + paired(m0.registrations, node.id), ..goal });
        match prev {
            Some(p) => {
                assert forall|j: int| 0 <= j < prevs.len() implies prev_keys@[j] == prevs[j].key by {
                    assert(prevs[j] == p.children@[j].model());
                }
            },
            None => {},
        }
        assert(prev_keys@.len() == prevs.len());
        assert(Seq::new(0, |j: int| node.children@[j].model()) =~= Seq::<ViewModel>::empty());
        assert(registrations@.skip(regs0.len() as int) =~= Seq::<(u64, u64)>::empty());
        assert(registrations@.take(regs0.len() as int) =~= regs0);
        assert forall|j: int| 0 <= j < node.children@.len() implies node.children@[j].model()
            == m0.children[j] by {}
    }
    let n = node.children.len();
    let mut i: usize = 0;
    while i < n
        invariant
            n == node.children@.len(),
            n == m0.children.len(),
            i <= n,
            node.id == acc0.node.id,
            node.key == m0.key,
            node.props_hash == m0.props_hash,
            node.registrations@ == m0.registrations,
            forall|j: int| i <= j < n ==> node.children@[j].model() == m0.children[j],
            forall|j: int| i <= j < n ==> node.children@[j] == old(node).children@[j],
            prev_keys@.len() == prevs.len(),
            forall|j: int| 0 <= j < prevs.len() ==> prev_keys@[j] == prevs[j].key,
            prevs == match opt_model(prev) {
                Some(p) => p.children,
                None => Seq::<ViewModel>::empty(),
            },
            prev is None ==> prevs.len() == 0,
            m0 == old(node).model(),
            registrations@.len() >= regs0.len(),
            registrations@.take(regs0.len() as int) == regs0,
            goal == reconciled_children(
                m0,
                prevs,
                i as int,
                Reconciled {
                    node: ViewModel {
                        id: node.id,
                        children: Seq::new(i as nat, |j: int| node.children@[j].model()),
                        ..m0
                    },
                    actions: actions@,
                    registrations: registrations@.skip(regs0.len() as int),
                    next: *next_id,
                },
            ),
        decreases n - i,
    {
        let key = node.children[i].key;
        let found = matching_child(prev_keys.as_slice(), key);
        let prev_child: Option<&ViewNode> = match (prev, found) {
            (Some(p), Some(j)) => Some(&p.children[j]),
            _ => None,
        };
        let ghost fk = first_keyed_from(prevs, key, 0);
        proof {

            match found {
                Some(j) => {
                    assert forall|k: int| 0 <= k < j implies prevs[k].key != key by {
                        assert(prev_keys@[k] == prevs[k].key);
                    }
                    assert(prev_keys@[j as int] == prevs[j as int].key);
                    lemma_first_keyed(prevs, key, j as int, 0);
                },
                None => {
                    assert forall|k: int| 0 <= k < prevs.len() implies prevs[k].key != key by {
                        assert(prev_keys@[k] == prevs[k].key);
                    }
                    lemma_first_keyed(prevs, key, prevs.len() as int, 0);
                },
            }
            assert(opt_model(prev_child) == fk);
            assert(node.children@[i as int] == old(node).children@[i as int]);
            assert(decreases_to!(*old(node) => old(node).children@[i as int]));
        }
        let ghost before_regs = registrations@;
        let ghost before_actions = actions@;
        let ghost before_children = node.children@;
        let ghost before_next = *next_id;
        let ghost r = reconciled(m0.children[i as int], fk, before_next);
        let mut child_actions = reconcile(&mut node.children[i], prev_child, next_id, registrations);
        actions.append(&mut child_actions);
        proof {
            assert(registrations@ == before_regs + r.registrations);
            assert(registrations@.skip(regs0.len() as int) =~= before_regs.skip(regs0.len() as int)
                + r.registrations);
            assert(registrations@.take(regs0.len() as int) =~= before_regs.take(regs0.len() as int));
            assert(actions@ =~= before_actions + r.actions);
            assert(node.children@[i as int].model() == r.node);
            assert forall|j: int| 0 <= j < i implies node.children@[j] == before_children[j] by {}
            assert(Seq::new((i + 1) as nat, |j: int| node.children@[j].model()) =~= Seq::new(
                i as nat,
                |j: int| before_children[j].model(),
            ).push(r.node));
        }
        i = i + 1;
    }
    proof {
        assert(Seq::new(n as nat, |j: int| node.children@[j].model()) =~= node.model().children);
    }
    let ghost id = node.id;
    let ghost mid = registrations@;
    let mut k: usize = 0;
    while k < node.registrations.len()
        invariant
            k <= node.registrations@.len(),
            node.id == id,
            registrations@ == mid + paired(node.registrations@.take(k as int), id),
        decreases node.registrations@.len() - k,
    {
        let r = node.registrations[k];
        registrations.push((r, node.id));
        k = k + 1;
        proof {
            assert(node.registrations@.take(k as int) =~= node.registrations@.take(k - 1).push(r));
            assert(paired(node.registrations@.take(k as int), id) =~= paired(
                node.registrations@.take(k - 1),
                id,
            ).push((r, id)));
        }
    }
    proof {
        assert(node.registrations@.take(node.registrations@.len() as int) =~= node.registrations@);
        assert(mid =~= regs0 + mid.skip(regs0.len() as int));
        assert(registrations@ =~= regs0 + (mid.skip(regs0.len() as int) + paired(m0.registrations, id)));
        assert(node.model() =~= rr.node);
        assert(actions@ == rr.actions);
        assert(*next_id == rr.next);
        assert(registrations@ == regs0 + rr.registrations);
    }
    actions
}


/// Why children could not be placed in a newly viewed node.
#[derive(Debug, Clone, Copy, PartialEq, Eq, Structural)]
pub enum ViewError {
    /// Children were pushed onto a node whose component is not a container.
    NotAContainer,
    /// The container's index path does not start at 0 or leads nowhere.
    BadContainerPath,
}

/// The abstract trees of `nodes`.
pub open spec fn models(nodes: Seq<ViewNode>) -> Seq<ViewModel> {
    Seq::new(nodes.len(), |i: int| nodes[i].model())
}

/// Whether the child indices in `path` lead somewhere from `m`.
pub open spec fn has_path(m: ViewModel, path: Seq<usize>) -> bool
    decreases path.len(),
{
    path.len() == 0 || (path[0] < m.children.len() && has_path(
        m.children[path[0] as int],
        path.drop_first(),
    ))
}

/// `m` with `extra` added after the children of the node that `path` leads to.
pub open spec fn appended_at(m: ViewModel, path: Seq<usize>, extra: Seq<ViewModel>) -> ViewModel
    decreases path.len(),
{
    if path.len() == 0 {
        ViewModel { children: m.children + extra, ..m }
    } else {
        let i = path[0] as int;
        ViewModel {
            children: m.children.update(i, appended_at(m.children[i], path.drop_first(), extra)),
            ..m
        }
    }
}

/// Placing `child`, the tree a node's component viewed, under that node,
/// whose children so far were pushed onto it: without a container path, a
/// node with pushed children is an error, else `child` becomes its only
/// child; with an empty path, `child` goes first and the pushed children
/// follow; with a path, which must start at 0 (for `child` itself) and lead
/// somewhere in `child`, the pushed children go after the children of the
/// node it leads to, and `child` becomes the only child.
pub open spec fn placed(node: ViewModel, child: ViewModel, container: Option<Seq<usize>>) -> Result<ViewModel, ViewError> {
    match container {
        None => if node.children.len() > 0 {
            Err(ViewError::NotAContainer)
        } else {
            Ok(ViewModel { children: seq![child], ..node })
        },
        Some(path) => if path.len() == 0 {
            Ok(ViewModel { children: seq![child] + node.children, ..node })
        } else if path[0] != 0 || !has_path(child, path.drop_first()) {
            Err(ViewError::BadContainerPath)
        } else {
            Ok(
                ViewModel {
                    children: seq![appended_at(child, path.drop_first(), node.children)],
                    ..node
                },
            )
        },
    }
}

fn leads_somewhere(n: &ViewNode, path: &[usize], k: usize) -> (r: bool)
    requires
        k <= path@.len(),
    ensures
        r == has_path(n.model(), path@.skip(k as int)),
    decreases path@.len() - k,
{
    if k == path.len() {
        proof {
            assert(path@.skip(k as int).len() == 0);
        }
        true
    } else {
        let i = path[k];
        proof {
            assert(path@.skip(k as int)[0] == i);
            assert(path@.skip(k as int).drop_first() =~= path@.skip(k + 1));
        }
        if i < n.children.len() {
            proof {
                assert(n.model().children[i as int] == n.children@[i as int].model());
            }
            leads_somewhere(&n.children[i], path, k + 1)
        } else {
            false
        }
    }
}

fn append_at(n: &mut ViewNode, path: &[usize], k: usize, extra: Vec<ViewNode>)
    requires
        k <= path@.len(),
        has_path(old(n).model(), path@.skip(k as int)),
    ensures
        final(n).model() == appended_at(old(n).model(), path@.skip(k as int), models(extra@)),
    decreases path@.len() - k,
{
    let ghost m0 = n.model();
    if k == path.len() {
        proof {
            assert(path@.skip(k as int).len() == 0);
        }
        let mut extra = extra;
        let ghost e = extra@;
        n.children.append(&mut extra);
        proof {
            assert(n.model().children =~= m0.children + models(e));
            assert(n.model() =~= appended_at(m0, path@.skip(k as int), models(e)));
        }
    } else {
        let i = path[k];
        proof {
            assert(path@.skip(k as int)[0] == i);
            assert(path@.skip(k as int).drop_first() =~= path@.skip(k + 1));
            assert(m0.children[i as int] == n.children@[i as int].model());
        }
        let ghost before = n.children@;
        append_at(&mut n.children[i], path, k + 1, extra);
        proof {
            assert(n.model().children =~= m0.children.update(
                i as int,
                appended_at(m0.children[i as int], path@.skip(k + 1), models(extra@)),
            ));
            assert(n.model() =~= appended_at(m0, path@.skip(k as int), models(extra@)));
        }
    }
}

/// Places `child`, the tree that `node`'s component viewed, under `node`, with
/// the children pushed onto `node` moved to where `container` (the
/// component's container path, if it is a container) says (see [`placed`]).
/// On an error `node` is left as it was.
pub fn place_view_child(node: &mut ViewNode, child: ViewNode, container: Option<&[usize]>) -> (r: Result<(), ViewError>)
    ensures
        match placed(
            old(node).model(),
            child.model(),
            match container {
                Some(p) => Some(p@),
                None => None,
            },
        ) {
            Ok(m) => r is Ok && final(node).model() == m,
            Err(e) => r == Err::<(), ViewError>(e) && final(node).model() == old(node).model(),
        },
{
    let ghost m0 = node.model();
    let ghost cm = child.model();
    match container {
        None => {
            if node.children.len() > 0 {
                return Err(ViewError::NotAContainer);
            }
            node.children.push(child);
            proof {
                assert(node.model().children =~= seq![cm]);
                assert(node.model() =~= ViewModel { children: seq![cm], ..m0 });
            }
            Ok(())
        },
        Some(indexes) => {
            if indexes.len() == 0 {
                let mut pushed: Vec<ViewNode> = Vec::new();
                std::mem::swap(&mut pushed, &mut node.children);
                let ghost old_children = pushed@;
                node.children.push(child);
                node.children.append(&mut pushed);
                proof {
                    assert(node.model().children =~= seq![cm] + m0.children);
                    assert(node.model() =~= ViewModel { children: seq![cm] + m0.children, ..m0 });
                }
                Ok(())
            } else {
                proof {
                    assert(indexes@.skip(1) =~= indexes@.drop_first());
                }
                if indexes[0] != 0 || !leads_somewhere(&child, indexes, 1) {
                    return Err(ViewError::BadContainerPath);
                }
                let mut pushed: Vec<ViewNode> = Vec::new();
                std::mem::swap(&mut pushed, &mut node.children);
                proof {
                    assert(models(pushed@) =~= m0.children);
                }
                let mut child = child;
                append_at(&mut child, indexes, 1, pushed);
                let ghost placed_child = child.model();
                node.children.push(child);
                proof {
                    assert(node.model().children =~= seq![placed_child]);
                    assert(node.model() =~= ViewModel {
                        children: seq![appended_at(cm, indexes@.drop_first(), m0.children)],
                        ..m0
                    });
                }
                Ok(())
            }
        },
    }
}


/// The node that the child indices in `path` lead to from `m`.
pub open spec fn subtree_at(m: ViewModel, path: Seq<usize>) -> ViewModel
    decreases path.len(),
{
    if path.len() == 0 {
        m
    } else {
        subtree_at(m.children[path[0] as int], path.drop_first())
    }
}

/// Neither path is a prefix of the other: they part at some step.
pub open spec fn diverge(p: Seq<usize>, q: Seq<usize>) -> bool {
    exists|i: int| 0 <= i < p.len() && i < q.len() && p[i] != q[i] && p.take(i) == q.take(i)
}

/// Adding children at the end of a path: the node the path leads to keeps
/// its own children first, in order, and the added ones follow in order;
/// its other fields stay, the path still leads somewhere, and every node off
/// the path (reached by a path that parts from it) is untouched.
pub proof fn lemma_appended_after_own_children(
    m: ViewModel,
    path: Seq<usize>,
    extra: Seq<ViewModel>,
    q: Seq<usize>,
)
    requires
        has_path(m, path),
    ensures
        has_path(appended_at(m, path, extra), path),
        subtree_at(appended_at(m, path, extra), path).children == subtree_at(m, path).children
            + extra,
        subtree_at(appended_at(m, path, extra), path).id == subtree_at(m, path).id,
        subtree_at(appended_at(m, path, extra), path).key == subtree_at(m, path).key,
        subtree_at(appended_at(m, path, extra), path).props_hash == subtree_at(m, path).props_hash,
        subtree_at(appended_at(m, path, extra), path).registrations == subtree_at(
            m,
            path,
        ).registrations,
        has_path(m, q) && diverge(path, q) ==> has_path(appended_at(m, path, extra), q)
            && subtree_at(appended_at(m, path, extra), q) == subtree_at(m, q),
    decreases path.len(),
{
    if path.len() > 0 {
        let i = path[0] as int;
        lemma_appended_after_own_children(m.children[i], path.drop_first(), extra, q.drop_first());
        let a = appended_at(m, path, extra);
        assert(a.children[i] == appended_at(m.children[i], path.drop_first(), extra));
        if has_path(m, q) && diverge(path, q) {
            let j = choose|j: int|
                0 <= j < path.len() && j < q.len() && path[j] != q[j] && path.take(j) == q.take(j);
            if j == 0 {
                assert(q[0] != path[0]);
                assert(a.children[q[0] as int] == m.children[q[0] as int]);
            } else {
                assert(q[0] == path.take(j)[0]);
                assert(diverge(path.drop_first(), q.drop_first())) by {
                    assert(path.drop_first().take(j - 1) =~= path.take(j).drop_first());
                    assert(q.drop_first().take(j - 1) =~= q.take(j).drop_first());
                    assert(path.drop_first()[j - 1] != q.drop_first()[j - 1]);
                    assert(path.drop_first().take(j - 1) == q.drop_first().take(j - 1));
                }
            }
        }
    } else {
        if has_path(m, q) && diverge(path, q) {
            assert(false);
        }
    }
}

/// What placing a viewed child does, stated by where things end up: without
/// a container path the child becomes the only child, and pushed children are
/// refused; with an empty path the child goes first and the pushed children
/// follow in order; with a path from the child (starting at 0) that leads
/// somewhere, the child becomes the only child, and the node the path leads
/// to keeps its own children first and then has the pushed children in
/// order; a path that does not start at 0 or leads nowhere is refused. The
/// node's own fields stay.
pub proof fn lemma_placed_children_follow_own(node: ViewModel, child: ViewModel, path: Seq<usize>)
    ensures
        node.children.len() == 0 ==> (placed(node, child, None) matches Ok(r) && r.children
            == seq![child] && r.id == node.id && r.key == node.key),
        node.children.len() > 0 ==> placed(node, child, None) == Err::<ViewModel, ViewError>(
            ViewError::NotAContainer,
        ),
        path.len() == 0 ==> (placed(node, child, Some(path)) matches Ok(r) && r.children
            == seq![child] + node.children && r.id == node.id && r.key == node.key),
        path.len() > 0 && (path[0] != 0 || !has_path(child, path.drop_first())) ==> placed(
            node,
            child,
            Some(path),
        ) == Err::<ViewModel, ViewError>(ViewError::BadContainerPath),
        path.len() > 0 && path[0] == 0 && has_path(child, path.drop_first()) ==> ({
            let r = placed(node, child, Some(path));
            &&& r is Ok
            &&& r->Ok_0.id == node.id
            &&& r->Ok_0.key == node.key
            &&& r->Ok_0.children.len() == 1
            &&& has_path(r->Ok_0.children[0], path.drop_first())
            &&& subtree_at(r->Ok_0.children[0], path.drop_first()).children == subtree_at(
                child,
                path.drop_first(),
            ).children + node.children
            &&& subtree_at(r->Ok_0.children[0], path.drop_first()).key == subtree_at(
                child,
                path.drop_first(),
            ).key
        }),
{
    if path.len() > 0 && path[0] == 0 && has_path(child, path.drop_first()) {
        lemma_appended_after_own_children(child, path.drop_first(), node.children, seq![]);
    }
}


/// Takes a fresh node id from the counter `next_id`: its current value; the
/// counter moves on by one, wrapping as an atomic counter does.
pub fn new_node_id(next_id: &mut u64) -> (r: u64)
    ensures
        r == *old(next_id),
        *final(next_id) == after(*old(next_id)),
{
    let id = *next_id;
    *next_id = if id == u64::MAX { 0 } else { id + 1 };
    id
}

/// Until the counter wraps, the ids it hands out strictly increase.
pub proof fn lemma_fresh_ids_increase(next: u64)
    requires
        next < u64::MAX,
    ensures
        after(next) > next,
{
}

/// The paths that messages bubble along from the node at `stack`: that node,
/// then each ancestor in turn, up to the root.
pub fn bubble_paths(stack: &Vec<usize>) -> (r: Vec<Vec<usize>>)
    ensures
        r@.len() == stack@.len() + 1,
        forall|i: int| 0 <= i < r@.len() ==> #[trigger] r@[i]@ == stack@.take(stack@.len() - i),
{
    let mut r: Vec<Vec<usize>> = Vec::new();
    let mut path: Vec<usize> = stack.clone();
    proof {
        assert(path@ =~= stack@.take(stack@.len() as int));
    }
    loop
        invariant_except_break
            r@.len() == stack@.len() - path@.len(),
        invariant
            path@.len() <= stack@.len(),
            path@ == stack@.take(path@.len() as int),
            r@.len() <= stack@.len() + 1,
            r@.len() == stack@.len() + 1 || r@.len() == stack@.len() - path@.len(),
            forall|i: int| 0 <= i < r@.len() ==> #[trigger] r@[i]@ == stack@.take(stack@.len() - i),
        ensures
            r@.len() == stack@.len() + 1,
            forall|i: int| 0 <= i < r@.len() ==> #[trigger] r@[i]@ == stack@.take(stack@.len() - i),
        decreases path@.len(),
    {
        let copy = path.clone();
        proof {
            assert(copy@ == path@);
        }
        r.push(copy);
        if path.len() == 0 {
            break;
        }
        path.pop();
        proof {
            assert(path@ =~= stack@.take(path@.len() as int));
        }
    }
    r
}

/// Every ancestor of a node that a path reaches is reached by a shorter path:
/// its prefix.
pub proof fn lemma_prefix_reaches_ancestor(tree: NodeIdTree, path: Seq<usize>, k: int)
    requires
        tree.at_path(path) is Some,
        0 <= k <= path.len(),
    ensures
        tree.at_path(path.take(k)) is Some,
    decreases path.len(),
{
    if k > 0 {
        let i = path[0] as int;
        assert(path.take(k).drop_first() =~= path.drop_first().take(k - 1));
        assert(path.take(k)[0] == path[0]);
        lemma_prefix_reaches_ancestor(tree.children@[i], path.drop_first(), k - 1);
    }
}


/// Building the children on top of `acc` keeps what `acc` holds in front:
/// the node's own fields and earlier children, the actions and the
/// registrations so far; it adds one child per child, and a child whose key a
/// previous child has keeps that previous child's id.
proof fn lemma_children_fold(n: ViewModel, prevs: Seq<ViewModel>, i: int, acc: Reconciled)
    requires
        0 <= i <= n.children.len(),
    ensures
        ({
            let r = reconciled_children(n, prevs, i, acc);
            &&& r.node.id == acc.node.id
            &&& r.node.key == acc.node.key
            &&& r.node.props_hash == acc.node.props_hash
            &&& r.node.registrations == acc.node.registrations
            &&& r.node.children.len() == acc.node.children.len() + n.children.len() - i
            &&& r.node.children.take(acc.node.children.len() as int) == acc.node.children
            &&& r.actions.len() >= acc.actions.len()
            &&& r.actions.take(acc.actions.len() as int) == acc.actions
            &&& forall|j: int|
                i <= j < n.children.len() ==> (first_keyed_from(prevs, n.children[j].key, 0) matches Some(p)
                    ==> #[trigger] r.node.children[acc.node.children.len() + j - i].id == p.id)
            &&& i == n.children.len() ==> r == acc
            &&& i < n.children.len() ==> r.actions.len() > acc.actions.len() && !(r.actions[acc.actions.len() as int] is NewProps)
        }),
    decreases n, 0int, n.children.len() - i,
{
    if i < n.children.len() {
        let c = n.children[i];
        let rc = reconciled(c, first_keyed_from(prevs, c.key, 0), acc.next);
        let acc2 = Reconciled {
            node: ViewModel { children: acc.node.children.push(rc.node), ..acc.node },
            actions: acc.actions + rc.actions,
            registrations: acc.registrations + rc.registrations,
            next: rc.next,
        };
        lemma_children_fold(n, prevs, i + 1, acc2);
        let r = reconciled_children(n, prevs, i, acc);
        assert(r == reconciled_children(n, prevs, i + 1, acc2));
        assert(acc2.node.children.take(acc.node.children.len() as int) =~= acc.node.children);
        assert(r.node.children.take(acc.node.children.len() as int) =~= acc.node.children) by {
            assert(r.node.children.take(acc2.node.children.len() as int) == acc2.node.children);
            assert forall|k: int| 0 <= k < acc.node.children.len() implies r.node.children[k]
                == acc.node.children[k] by {
                assert(r.node.children.take(acc2.node.children.len() as int)[k] == acc2.node.children[k]);
            }
        }
        assert(r.actions.take(acc.actions.len() as int) =~= acc.actions) by {
            assert(r.actions.take(acc2.actions.len() as int) == acc2.actions);
            assert forall|k: int| 0 <= k < acc.actions.len() implies r.actions[k] == acc.actions[k] by {
                assert(r.actions.take(acc2.actions.len() as int)[k] == acc2.actions[k]);
            }
        }
        lemma_view_own(c, first_keyed_from(prevs, c.key, 0), acc.next);
        assert(r.actions[acc.actions.len() as int] == rc.actions[0]) by {
            assert(r.actions.take(acc2.actions.len() as int)[acc.actions.len() as int]
                == acc2.actions[acc.actions.len() as int]);
        }
        assert(r.node.children[acc.node.children.len() as int] == rc.node) by {
            assert(r.node.children.take(acc2.node.children.len() as int)[acc.node.children.len() as int]
                == acc2.node.children[acc.node.children.len() as int]);
        }
        assert forall|j: int|
            i <= j < n.children.len() implies (first_keyed_from(prevs, n.children[j].key, 0) matches Some(p)
                ==> #[trigger] r.node.children[acc.node.children.len() + j - i].id == p.id) by {
            if j > i {
                let k = acc2.node.children.len() + j - (i + 1);
                assert(k == acc.node.children.len() + j - i);
                assert(first_keyed_from(prevs, n.children[j].key, 0) matches Some(p) ==> r.node.children[k].id == p.id);
            }
        }
    } else {
        assert(acc.node.children.take(acc.node.children.len() as int) =~= acc.node.children);
        assert(acc.actions.take(acc.actions.len() as int) =~= acc.actions);
    }
}

/// The node's own part of building it anew: a node that existed keeps its id
/// and first takes over its state, then hears of new properties exactly when
/// their hash changed; a new node takes the next fresh id and is first set
/// up. The node keeps its key, properties and registrations and gets one
/// child per child, each child that a previous child has the key of keeping
/// that child's id; its own registrations come last.
pub proof fn lemma_view_own(n: ViewModel, prev: Option<ViewModel>, next: u64)
    ensures
        ({
            let r = reconciled(n, prev, next);
            let prevs = match prev {
                Some(p) => p.children,
                None => Seq::<ViewModel>::empty(),
            };
            &&& r.node.id == match prev {
                Some(p) => p.id,
                None => next,
            }
            &&& r.node.key == n.key
            &&& r.node.props_hash == n.props_hash
            &&& r.node.registrations == n.registrations
            &&& r.node.children.len() == n.children.len()
            &&& r.actions.len() >= 1
            &&& r.actions[0] == match prev {
                Some(p) => ViewAction::TakeState(p.id),
                None => ViewAction::Init(next),
            }
            &&& (prev matches Some(p) ==> (p.props_hash != n.props_hash <==> (r.actions.len() >= 2
                && r.actions[1] == ViewAction::NewProps(p.id))))
            &&& forall|j: int|
                0 <= j < n.children.len() ==> (first_keyed_from(prevs, n.children[j].key, 0) matches Some(
                    pc,
                ) ==> #[trigger] r.node.children[j].id == pc.id)
            &&& r.registrations.len() >= n.registrations.len()
            &&& r.registrations.skip(r.registrations.len() - n.registrations.len()) == paired(
                n.registrations,
                match prev {
                    Some(p) => p.id,
                    None => next,
                },
            )
        }),
    decreases n, 2int, 0int,
{
    let id = match prev {
        Some(p) => p.id,
        None => next,
    };
    let acts = match prev {
        Some(p) => if p.props_hash != n.props_hash {
            seq![ViewAction::TakeState(p.id), ViewAction::NewProps(p.id)]
        } else {
            seq![ViewAction::TakeState(p.id)]
        },
        None => seq![ViewAction::Init(next)],
    };
    let next1 = match prev {
        Some(_) => next,
        None => after(next),
    };
    let prevs = match prev {
        Some(p) => p.children,
        None => Seq::empty(),
    };
    let acc = Reconciled {
        node: ViewModel { id, children: Seq::empty(), ..n },
        actions: acts,
        registrations: Seq::empty(),
        next: next1,
    };
    lemma_children_fold(n, prevs, 0, acc);
    let c = reconciled_children(n, prevs, 0, acc);
    let r = reconciled(n, prev, next);
    assert(r.actions == c.actions);
    assert(r.actions[0] == c.actions.take(acts.len() as int)[0]);
    if acts.len() == 2 {
        assert(r.actions[1] == c.actions.take(acts.len() as int)[1]);
    }
    assert forall|j: int|
        0 <= j < n.children.len() implies (first_keyed_from(prevs, n.children[j].key, 0) matches Some(
            pc,
        ) ==> #[trigger] r.node.children[j].id == pc.id) by {
        assert(first_keyed_from(prevs, n.children[j].key, 0) matches Some(pc) ==> c.node.children[0 + j - 0].id == pc.id);
    }
    assert(r.registrations.skip(r.registrations.len() - n.registrations.len()) =~= paired(
        n.registrations,
        id,
    ));
}

} // verus!
