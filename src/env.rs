use vstd::prelude::*;

verus! {

/// The outcome of probing for one toolchain prerequisite.
#[derive(Debug)]
pub struct Probe {
    pub name: String,
    pub found: bool,
}

/// A prerequisite that could not be located.
#[derive(Debug)]
pub struct EnvError {
    pub missing: String,
}

/// Evidence that every required toolchain prerequisite was found.
#[derive(Debug)]
pub struct Env {
    tools: Vec<String>,
}

impl Env {
    /// The names of the prerequisites this environment was validated against.
    pub closed spec fn view(&self) -> Seq<Seq<char>> {
        self.tools@.map_values(|t: String| t@)
    }

    /// Validates the probe results: succeeds only when every prerequisite was
    /// found, else names the first one missing.
    pub fn validate(probes: &Vec<Probe>) -> (r: Result<Env, EnvError>)
        ensures
            r is Ok <==> forall|i: int| 0 <= i < probes@.len() ==> probes@[i].found,
            r matches Ok(env) ==> env@ == probes@.map_values(|p: Probe| p.name@),
            r matches Err(e) ==> exists|i: int|
                0 <= i < probes@.len() && !probes@[i].found && e.missing@ == probes@[i].name@
                && forall|j: int| 0 <= j < i ==> probes@[j].found,
    {
        let mut tools: Vec<String> = Vec::new();
        let mut i: usize = 0;
        while i < probes.len()
            invariant
                i <= probes@.len(),
                tools@.len() == i,
                forall|j: int| 0 <= j < i ==> probes@[j].found && tools@[j]@ == probes@[j].name@,
            decreases probes@.len() - i,
        {
            if !probes[i].found {
                return Err(EnvError { missing: probes[i].name.clone() });
            }
            tools.push(probes[i].name.clone());
            i = i + 1;
        }
        let env = Env { tools };
        assert(env@ =~= probes@.map_values(|p: Probe| p.name@));
        Ok(env)
    }

    /// Whether `name` is among the validated prerequisites.
    pub fn has_tool(&self, name: &String) -> (r: bool)
        ensures
            r == self@.contains(name@),
    {
        let mut i: usize = 0;
        while i < self.tools.len()
            invariant
                i <= self.tools@.len(),
                forall|j: int| 0 <= j < i ==> self.tools@[j]@ != name@,
            decreases self.tools@.len() - i,
        {
            if self.tools[i] == *name {
                assert(self@[i as int] == name@);
                return true;
            }
            i = i + 1;
        }
        proof {
            if self@.contains(name@) {
                let k = choose|k: int| 0 <= k < self@.len() && self@[k] == name@;
                assert(self.tools@[k]@ == name@);
            }
        }
        false
    }
}

} // verus!
