use vstd::prelude::*;

use crate::cmd::{ErrorKind, ErrorKindView};

verus! {

/// A workspace entry: a name and the directory it stands for.
#[derive(Debug)]
pub struct Workspace {
    pub name: String,
    pub path: String,
}

/// A workspace as a (name, path) pair of character sequences.
pub type Record = (Seq<char>, Seq<char>);

impl DeepView for Workspace {
    type V = Record;

    open spec fn deep_view(&self) -> Record {
        (self.name@, self.path@)
    }
}

/// Whether some record of `s` is named `n`.
pub open spec fn has_name(s: Seq<Record>, n: Seq<char>) -> bool {
    exists|i: int| 0 <= i < s.len() && s[i].0 == n
}

/// Whether `i` is the position of the first record of `s` named `n`.
pub open spec fn first_named(s: Seq<Record>, n: Seq<char>, i: int) -> bool {
    &&& 0 <= i < s.len()
    &&& s[i].0 == n
    &&& forall|j: int| 0 <= j < i ==> s[j].0 != n
}

/// How many records of `s` are named `n`.
pub open spec fn count_named(s: Seq<Record>, n: Seq<char>) -> nat
    decreases s.len(),
{
    if s.len() == 0 {
        0
    } else {
        count_named(s.drop_last(), n) + if s.last().0 == n {
            1nat
        } else {
            0nat
        }
    }
}

/// The store after creating workspace `n` at path `p`: refused when the name
/// is taken, else the record is appended.
pub open spec fn created(s: Seq<Record>, n: Seq<char>, p: Seq<char>) -> Result<
    Seq<Record>,
    ErrorKindView,
> {
    if has_name(s, n) {
        Err(ErrorKindView::WorkspaceAlreadyExist(n))
    } else {
        Ok(s.push((n, p)))
    }
}

/// The store after deleting workspace `n`: refused when no record has that
/// name, else the first record with it is removed and the rest keep their
/// order.
pub open spec fn deleted(s: Seq<Record>, n: Seq<char>) -> Result<Seq<Record>, ErrorKindView> {
    if has_name(s, n) {
        Ok(s.remove(choose|i: int| first_named(s, n, i)))
    } else {
        Err(ErrorKindView::WorkspaceNotFound(n))
    }
}

/// The path stored for workspace `n`, from its first record.
pub open spec fn path_of(s: Seq<Record>, n: Seq<char>) -> Result<Seq<char>, ErrorKindView> {
    if has_name(s, n) {
        Ok(s[choose|i: int| first_named(s, n, i)].1)
    } else {
        Err(ErrorKindView::WorkspaceNotFound(n))
    }
}

/// At most one position is the first one with a given name.
pub proof fn lemma_first_named_unique(s: Seq<Record>, n: Seq<char>, i: int)
    requires
        first_named(s, n, i),
    ensures
        has_name(s, n),
        (choose|k: int| first_named(s, n, k)) == i,
{
    let k = choose|k: int| first_named(s, n, k);
    assert(first_named(s, n, k));
    if k < i {
        assert(s[k].0 != n);
    } else if i < k {
        assert(s[i].0 != n);
    }
}

/// A store with no record named `n` counts none.
pub proof fn lemma_count_absent(s: Seq<Record>, n: Seq<char>)
    requires
        !has_name(s, n),
    ensures
        count_named(s, n) == 0,
    decreases s.len(),
{
    if s.len() > 0 {
        assert(!has_name(s.drop_last(), n)) by {
            if has_name(s.drop_last(), n) {
                let i = choose|i: int| 0 <= i < s.len() - 1 && s.drop_last()[i].0 == n;
                assert(s[i].0 == n);
            }
        }
        lemma_count_absent(s.drop_last(), n);
        assert(s.last() == s[s.len() - 1]);
    }
}

/// Creating a workspace under a name that was just created is refused with
/// `WorkspaceAlreadyExist`, and the store holds exactly one record of that
/// name.
pub proof fn lemma_create_twice(s: Seq<Record>, n: Seq<char>, p: Seq<char>, q: Seq<char>)
    requires
        created(s, n, p) is Ok,
    ensures
        created(created(s, n, p)->Ok_0, n, q) == Err::<Seq<Record>, ErrorKindView>(
            ErrorKindView::WorkspaceAlreadyExist(n),
        ),
        count_named(created(s, n, p)->Ok_0, n) == 1,
{
    let s2 = s.push((n, p));
    assert(s2[s.len() as int].0 == n);
    assert(s2.drop_last() =~= s);
    lemma_count_absent(s, n);
}

/// Deleting a name that no record has is refused with `WorkspaceNotFound`.
pub proof fn lemma_delete_absent(s: Seq<Record>, n: Seq<char>)
    requires
        !has_name(s, n),
    ensures
        deleted(s, n) == Err::<Seq<Record>, ErrorKindView>(ErrorKindView::WorkspaceNotFound(n)),
{
}

/// After creating workspace `n` at path `p`, going to `n` gives `p` exactly,
/// and the listing ends with that workspace.
pub proof fn lemma_create_then_goto(s: Seq<Record>, n: Seq<char>, p: Seq<char>)
    requires
        created(s, n, p) is Ok,
    ensures
        path_of(created(s, n, p)->Ok_0, n) == Ok::<Seq<char>, ErrorKindView>(p),
        created(s, n, p)->Ok_0.last() == (n, p),
{
    let s2 = s.push((n, p));
    assert(first_named(s2, n, s.len() as int)) by {
        assert forall|j: int| 0 <= j < s.len() implies s2[j].0 != n by {
            assert(s2[j] == s[j]);
        }
    }
    lemma_first_named_unique(s2, n, s.len() as int);
}

/// Deleting the only record of a store leaves it empty.
pub proof fn lemma_delete_only(n: Seq<char>, p: Seq<char>)
    ensures
        deleted(seq![(n, p)], n) == Ok::<Seq<Record>, ErrorKindView>(Seq::<Record>::empty()),
{
    let s = seq![(n, p)];
    assert(first_named(s, n, 0));
    lemma_first_named_unique(s, n, 0);
    assert(s.remove(0) =~= Seq::<Record>::empty());
}

/// Position of the first workspace named `name`, if any.
fn find_index(workspaces: &Vec<Workspace>, name: &String) -> (r: Option<usize>)
    ensures
        match r {
            Some(i) => first_named(workspaces.deep_view(), name@, i as int),
            None => !has_name(workspaces.deep_view(), name@),
        },
{
    let ghost s = workspaces.deep_view();
    let mut k: usize = 0;
    while k < workspaces.len()
        invariant
            k <= workspaces@.len(),
            s == workspaces.deep_view(),
            forall|j: int| 0 <= j < k ==> s[j].0 != name@,
        decreases workspaces@.len() - k,
    {
        if workspaces[k].name == *name {
            return Some(k);
        }
        k = k + 1;
    }
    None
}

/// Whether some workspace is named `name`.
pub fn has_workspace(workspaces: &Vec<Workspace>, name: &String) -> (r: bool)
    ensures
        r == has_name(workspaces.deep_view(), name@),
{
    find_index(workspaces, name).is_some()
}

/// Append workspace `name` at `path`, unless a workspace of that name exists.
pub fn create_workspace(workspaces: &mut Vec<Workspace>, name: String, path: String) -> (r: Result<
    (),
    ErrorKind,
>)
    ensures
        match r {
            Ok(()) => created(old(workspaces).deep_view(), name@, path@) == Ok::<
                Seq<Record>,
                ErrorKindView,
            >(final(workspaces).deep_view()),
            Err(e) => created(old(workspaces).deep_view(), name@, path@) == Err::<
                Seq<Record>,
                ErrorKindView,
            >(e@) && final(workspaces).deep_view() == old(workspaces).deep_view(),
        },
{
    match find_index(workspaces, &name) {
        Some(_) => Err(ErrorKind::WorkspaceAlreadyExist(name)),
        None => {
            let ghost before = workspaces.deep_view();
            workspaces.push(Workspace { name, path });
            assert(workspaces.deep_view() =~= before.push((name@, path@)));
            Ok(())
        },
    }
}

/// Remove the first workspace named `name`, keeping the others in order.
pub fn delete_workspace(workspaces: &mut Vec<Workspace>, name: String) -> (r: Result<
    (),
    ErrorKind,
>)
    ensures
        match r {
            Ok(()) => deleted(old(workspaces).deep_view(), name@) == Ok::<
                Seq<Record>,
                ErrorKindView,
            >(final(workspaces).deep_view()),
            Err(e) => deleted(old(workspaces).deep_view(), name@) == Err::<
                Seq<Record>,
                ErrorKindView,
            >(e@) && final(workspaces).deep_view() == old(workspaces).deep_view(),
        },
{
    match find_index(workspaces, &name) {
        Some(i) => {
            let ghost before = workspaces.deep_view();
            proof {
                lemma_first_named_unique(before, name@, i as int);
            }
            workspaces.remove(i);
            assert(workspaces.deep_view() =~= before.remove(i as int));
            Ok(())
        },
        None => Err(ErrorKind::WorkspaceNotFound(name)),
    }
}

/// The path stored for workspace `name`.
pub fn goto_workspace(workspaces: &Vec<Workspace>, name: String) -> (r: Result<String, ErrorKind>)
    ensures
        match r {
            Ok(p) => path_of(workspaces.deep_view(), name@) == Ok::<Seq<char>, ErrorKindView>(p@),
            Err(e) => path_of(workspaces.deep_view(), name@) == Err::<Seq<char>, ErrorKindView>(
                e@,
            ),
        },
{
    match find_index(workspaces, &name) {
        Some(i) => {
            proof {
                lemma_first_named_unique(workspaces.deep_view(), name@, i as int);
            }
            Ok(workspaces[i].path.clone())
        },
        None => Err(ErrorKind::WorkspaceNotFound(name)),
    }
}

} // verus!
