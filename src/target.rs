use vstd::prelude::*;
use vstd::string::*;

verus! {

/// A buildable unit: a stable identifier and the architecture it compiles
/// for, named as the platform's device tools report it.
#[derive(Debug)]
pub struct Target {
    pub id: String,
    pub arch: String,
    /// The compiler's target triple.
    pub triple: String,
}

/// A requested identifier that names no registered target.
#[derive(Debug)]
pub struct TargetInvalid {
    pub name: String,
}

/// Which targets a command asks for.
#[derive(Debug)]
pub enum Selection {
    /// Every registered target, in registry order.
    All,
    /// The named targets, in the order given.
    Named(Vec<String>),
}

/// A fixed set of targets with pairwise distinct identifiers.
#[derive(Debug)]
pub struct Registry {
    targets: Vec<Target>,
}

pub open spec fn ids_unique(ts: Seq<Target>) -> bool {
    forall|i: int, j: int| 0 <= i < j < ts.len() ==> ts[i].id@ != ts[j].id@
}

pub open spec fn has_id(ts: Seq<Target>, id: Seq<char>) -> bool {
    exists|i: int| 0 <= i < ts.len() && ts[i].id@ == id
}

/// The position of the target named `id`; meaningful when `has_id(ts, id)`.
pub open spec fn index_of(ts: Seq<Target>, id: Seq<char>) -> int {
    choose|i: int| 0 <= i < ts.len() && ts[i].id@ == id
}

pub open spec fn views(ss: Seq<String>) -> Seq<Seq<char>> {
    ss.map_values(|s: String| s@)
}

/// Order-preserving resolution of identifiers: the positions of the named
/// targets, or the first identifier that names none.
pub open spec fn resolution(ts: Seq<Target>, sel: Seq<Seq<char>>) -> Result<Seq<int>, Seq<char>>
    decreases sel.len(),
{
    if sel.len() == 0 {
        Ok(Seq::empty())
    } else {
        match resolution(ts, sel.drop_last()) {
            Err(name) => Err(name),
            Ok(found) => if has_id(ts, sel.last()) {
                Ok(found.push(index_of(ts, sel.last())))
            } else {
                Err(sel.last())
            },
        }
    }
}

/// What a selection resolves to over the targets `ts`.
pub open spec fn selection_resolution(ts: Seq<Target>, sel: Selection) -> Result<Seq<int>, Seq<char>> {
    match sel {
        Selection::All => Ok(Seq::new(ts.len(), |i: int| i)),
        Selection::Named(names) => resolution(ts, views(names@)),
    }
}

pub open spec fn usize_seq_view(v: Seq<usize>) -> Seq<int> {
    v.map_values(|x: usize| x as int)
}

fn make_target(id: &str, arch: &str, triple: &str) -> (r: Target)
    ensures
        r.id@ == id@,
        r.arch@ == arch@,
        r.triple@ == triple@,
{
    Target { id: String::from_str(id), arch: String::from_str(arch), triple: String::from_str(triple) }
}

impl Registry {
    pub closed spec fn view(&self) -> Seq<Target> {
        self.targets@
    }

    pub closed spec fn wf(&self) -> bool {
        ids_unique(self.targets@)
    }

    /// A registry over `targets`, or `None` when two share an identifier.
    pub fn new(targets: Vec<Target>) -> (r: Option<Registry>)
        ensures
            r is Some <==> ids_unique(targets@),
            r matches Some(reg) ==> reg.wf() && reg@ == targets@,
    {
        let n = targets.len();
        let mut i: usize = 0;
        while i < n
            invariant
                n == targets@.len(),
                i <= n,
                forall|a: int, b: int| 0 <= a < b < n && a < i ==> targets@[a].id@ != targets@[b].id@,
            decreases n - i,
        {
            let mut j: usize = i + 1;
            while j < n
                invariant
                    n == targets@.len(),
                    i < n,
                    i + 1 <= j <= n,
                    forall|a: int, b: int| 0 <= a < b < n && a < i ==> targets@[a].id@ != targets@[b].id@,
                    forall|b: int| i < b < j ==> targets@[i as int].id@ != targets@[b].id@,
                decreases n - j,
            {
                if targets[i].id == targets[j].id {
                    return None;
                }
                j = j + 1;
            }
            i = i + 1;
        }
        Some(Registry { targets })
    }

    /// The Android targets; their architectures are named by ABI, as devices
    /// report them.
    pub fn android() -> (r: Registry)
        ensures
            r.wf(),
            r@.len() == 4,
            r@[0].id@ == "aarch64"@ && r@[0].arch@ == "arm64-v8a"@ && r@[0].triple@ == "aarch64-linux-android"@,
            r@[1].id@ == "armv7"@ && r@[1].arch@ == "armeabi-v7a"@ && r@[1].triple@ == "armv7-linux-androideabi"@,
            r@[2].id@ == "i686"@ && r@[2].arch@ == "x86"@ && r@[2].triple@ == "i686-linux-android"@,
            r@[3].id@ == "x86_64"@ && r@[3].arch@ == "x86_64"@ && r@[3].triple@ == "x86_64-linux-android"@,
    {
        proof {
            reveal_strlit("aarch64");
            reveal_strlit("armv7");
            reveal_strlit("i686");
            reveal_strlit("x86_64");
        }
        let targets = vec![
            make_target("aarch64", "arm64-v8a", "aarch64-linux-android"),
            make_target("armv7", "armeabi-v7a", "armv7-linux-androideabi"),
            make_target("i686", "x86", "i686-linux-android"),
            make_target("x86_64", "x86_64", "x86_64-linux-android"),
        ];
        assert(ids_unique(targets@)) by {
            assert(targets@[0].id@.len() == 7);
            assert(targets@[1].id@.len() == 5);
            assert(targets@[2].id@.len() == 4);
            assert(targets@[3].id@.len() == 6);
        }
        Registry { targets }
    }

    /// The iOS device and simulator targets.
    pub fn ios() -> (r: Registry)
        ensures
            r.wf(),
            r@.len() == 2,
            r@[0].id@ == "aarch64"@ && r@[0].arch@ == "arm64"@ && r@[0].triple@ == "aarch64-apple-ios"@,
            r@[1].id@ == "x86_64"@ && r@[1].arch@ == "x86_64"@ && r@[1].triple@ == "x86_64-apple-ios"@,
    {
        proof {
            reveal_strlit("aarch64");
            reveal_strlit("x86_64");
        }
        let targets = vec![
            make_target("aarch64", "arm64", "aarch64-apple-ios"),
            make_target("x86_64", "x86_64", "x86_64-apple-ios"),
        ];
        assert(ids_unique(targets@)) by {
            assert(targets@[0].id@.len() == 7);
            assert(targets@[1].id@.len() == 6);
        }
        Registry { targets }
    }

    /// The host-side pseudo-target that iOS libraries are compiled for when testing on macOS.
    pub fn macos() -> (r: Target)
        ensures
            r.id@ == "macos"@,
            r.arch@ == "x86_64"@,
            r.triple@ == "x86_64-apple-darwin"@,
    {
        make_target("macos", "x86_64", "x86_64-apple-darwin")
    }

    pub fn len(&self) -> (r: usize)
        ensures
            r == self@.len(),
    {
        self.targets.len()
    }

    pub fn get(&self, i: usize) -> (r: &Target)
        requires
            i < self@.len(),
        ensures
            *r == self@[i as int],
    {
        &self.targets[i]
    }

    /// The identifier of the target at position `i`.
    pub fn id(&self, i: usize) -> (r: &String)
        requires
            i < self@.len(),
        ensures
            r@ == self@[i as int].id@,
    {
        &self.targets[i].id
    }

    /// The position of the target named `id`, compared exactly.
    pub fn find(&self, id: &String) -> (r: Option<usize>)
        requires
            self.wf(),
        ensures
            r is Some <==> has_id(self@, id@),
            r matches Some(i) ==> i == index_of(self@, id@) && self@[i as int].id@ == id@,
    {
        let n = self.targets.len();
        let mut i: usize = 0;
        while i < n
            invariant
                self.wf(),
                n == self@.len(),
                i <= n,
                forall|k: int| 0 <= k < i ==> self@[k].id@ != id@,
            decreases n - i,
        {
            if self.targets[i].id == *id {
                proof {
                    lemma_index_of_unique(self@, id@, i as int);
                }
                return Some(i);
            }
            i = i + 1;
        }
        None
    }

    /// The position of the first target built for `arch`.
    pub fn for_arch(&self, arch: &String) -> (r: Option<usize>)
        ensures
            r is Some <==> exists|k: int| 0 <= k < self@.len() && self@[k].arch@ == arch@,
            r matches Some(i) ==> i < self@.len() && self@[i as int].arch@ == arch@
                && forall|k: int| 0 <= k < i ==> self@[k].arch@ != arch@,
    {
        let n = self.targets.len();
        let mut i: usize = 0;
        while i < n
            invariant
                n == self@.len(),
                i <= n,
                forall|k: int| 0 <= k < i ==> self@[k].arch@ != arch@,
            decreases n - i,
        {
            if self.targets[i].arch == *arch {
                return Some(i);
            }
            i = i + 1;
        }
        None
    }

    /// Resolves identifiers in order; the first unknown one is the error.
    pub fn resolve(&self, names: &Vec<String>) -> (r: Result<Vec<usize>, TargetInvalid>)
        requires
            self.wf(),
        ensures
            match r {
                Ok(v) => resolution(self@, views(names@)) == Ok::<Seq<int>, Seq<char>>(usize_seq_view(v@)),
                Err(e) => resolution(self@, views(names@)) == Err::<Seq<int>, Seq<char>>(e.name@),
            },
    {
        let mut found: Vec<usize> = Vec::new();
        let mut k: usize = 0;
        assert(views(names@).take(0) =~= Seq::<Seq<char>>::empty());
        assert(usize_seq_view(found@) =~= Seq::<int>::empty());
        while k < names.len()
            invariant
                self.wf(),
                k <= names@.len(),
                resolution(self@, views(names@).take(k as int)) == Ok::<Seq<int>, Seq<char>>(usize_seq_view(found@)),
                forall|m: int| 0 <= m < found@.len() ==> found@[m] < self@.len(),
            decreases names@.len() - k,
        {
            let ghost prefix = views(names@).take(k as int + 1);
            assert(prefix.drop_last() =~= views(names@).take(k as int));
            assert(prefix.last() == names@[k as int]@);
            match self.find(&names[k]) {
                Some(i) => {
                    let ghost before = found@;
                    found.push(i);
                    assert(usize_seq_view(found@) =~= usize_seq_view(before).push(i as int));
                },
                None => {
                    proof {
                        lemma_resolution_err_extends(self@, views(names@), k as int + 1, names@[k as int]@);
                    }
                    assert(views(names@).take(names@.len() as int) =~= views(names@));
                    return Err(TargetInvalid { name: names[k].clone() });
                },
            }
            k = k + 1;
        }
        assert(views(names@).take(names@.len() as int) =~= views(names@));
        Ok(found)
    }

    /// Resolves a selection: every target for `All`, else the named ones in order.
    pub fn resolve_selection(&self, sel: &Selection) -> (r: Result<Vec<usize>, TargetInvalid>)
        requires
            self.wf(),
        ensures
            match r {
                Ok(v) => selection_resolution(self@, *sel) == Ok::<Seq<int>, Seq<char>>(usize_seq_view(v@)),
                Err(e) => selection_resolution(self@, *sel) == Err::<Seq<int>, Seq<char>>(e.name@),
            },
    {
        match sel {
            Selection::All => {
                let mut all: Vec<usize> = Vec::new();
                let n = self.targets.len();
                let mut i: usize = 0;
                while i < n
                    invariant
                        n == self@.len(),
                        i <= n,
                        all@.len() == i,
                        forall|m: int| 0 <= m < i ==> all@[m] == m,
                    decreases n - i,
                {
                    all.push(i);
                    i = i + 1;
                }
                assert(usize_seq_view(all@) =~= Seq::new(self@.len(), |i: int| i));
                Ok(all)
            },
            Selection::Named(names) => self.resolve(names),
        }
    }
}

/// An identifier that names no registered target fails resolution, and the
/// failure names exactly that identifier.
pub proof fn lemma_unknown_target_rejected(ts: Seq<Target>, t: Seq<char>)
    requires
        !has_id(ts, t),
    ensures
        resolution(ts, seq![t]) == Err::<Seq<int>, Seq<char>>(t),
{
    assert(seq![t].drop_last() =~= Seq::<Seq<char>>::empty());
    assert(seq![t].last() == t);
    assert(resolution(ts, Seq::<Seq<char>>::empty()) == Ok::<Seq<int>, Seq<char>>(Seq::empty()));
}

/// Resolving a registered identifier and reading back the identifier of the
/// resolved target gives the identifier unchanged.
pub proof fn lemma_resolve_round_trip(ts: Seq<Target>, t: Seq<char>)
    requires
        ids_unique(ts),
        has_id(ts, t),
    ensures
        resolution(ts, seq![t]) == Ok::<Seq<int>, Seq<char>>(seq![index_of(ts, t)]),
        0 <= index_of(ts, t) < ts.len(),
        ts[index_of(ts, t)].id@ == t,
{
    assert(seq![t].drop_last() =~= Seq::<Seq<char>>::empty());
    assert(seq![t].last() == t);
    assert(resolution(ts, Seq::<Seq<char>>::empty()) == Ok::<Seq<int>, Seq<char>>(Seq::empty()));
    assert(Seq::<int>::empty().push(index_of(ts, t)) =~= seq![index_of(ts, t)]);
}

proof fn lemma_index_of_unique(ts: Seq<Target>, id: Seq<char>, i: int)
    requires
        ids_unique(ts),
        0 <= i < ts.len(),
        ts[i].id@ == id,
    ensures
        index_of(ts, id) == i,
{
    let j = index_of(ts, id);
    assert(0 <= j < ts.len() && ts[j].id@ == id);
}

proof fn lemma_resolution_err_extends(ts: Seq<Target>, sel: Seq<Seq<char>>, m: int, name: Seq<char>)
    requires
        0 <= m <= sel.len(),
        resolution(ts, sel.take(m)) == Err::<Seq<int>, Seq<char>>(name),
    ensures
        resolution(ts, sel) == Err::<Seq<int>, Seq<char>>(name),
    decreases sel.len(),
{
    if m == sel.len() {
        assert(sel.take(m) =~= sel);
    } else {
        assert(sel.drop_last().take(m) =~= sel.take(m));
        lemma_resolution_err_extends(ts, sel.drop_last(), m, name);
    }
}

} // verus!
