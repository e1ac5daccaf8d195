use crate::strings::names_of;
use crate::runner::{LimiterState, MemoryLimiter};
use vstd::prelude::*;

verus! {

/// The seed of the guest's source of random numbers.
pub const RANDOM_SEED: u64 = 0;

/// What a guest is given at its start, apart from its streams and its
/// directory.
#[derive(Debug)]
pub struct StoreSettings {
    /// The seed of the guest's source of random numbers.
    pub random_seed: u64,
    /// The guest's arguments, the name of the program first.
    pub args: Vec<String>,
    /// Where the directory is mounted in the guest, if one is handed over.
    pub preopen_path: Option<String>,
    /// The limiter that answers for the growth of the guest's memory.
    pub memory_limiter: MemoryLimiter,
    /// The fuel that the guest starts with.
    pub fuel: u64,
}

/// The settings of a guest as plain values.
pub struct StoreView {
    pub random_seed: u64,
    pub args: Seq<Seq<char>>,
    pub preopen_path: Option<Seq<char>>,
    pub memory_limiter: LimiterState,
    pub fuel: u64,
}

impl View for StoreSettings {
    type V = StoreView;

    open spec fn view(&self) -> StoreView {
        StoreView {
            random_seed: self.random_seed,
            args: names_of(self.args@),
            preopen_path: match self.preopen_path {
                Some(path) => Some(path@),
                None => None,
            },
            memory_limiter: self.memory_limiter@,
            fuel: self.fuel,
        }
    }
}

impl StoreView {
    /// The settings of a run: the seed is fixed, the arguments follow a made
    /// up program name, the directory is mounted at the guest's root, the
    /// limiter is fresh with the run's cap, and the fuel is the tick budget.
    pub open spec fn for_run(
        arguments: Seq<Seq<char>>,
        memory_limit: u64,
        tick_limit: u64,
        has_preopened_dir: bool,
    ) -> StoreView {
        StoreView {
            random_seed: RANDOM_SEED,
            args: seq!["arg0"@] + arguments,
            preopen_path: if has_preopened_dir {
                Some("/"@)
            } else {
                None
            },
            memory_limiter: LimiterState::fresh(memory_limit as nat),
            fuel: tick_limit,
        }
    }
}

impl StoreSettings {
    /// The settings of a run with the given arguments and budgets.
    pub fn new(arguments: &[String], memory_limit: u64, tick_limit: u64, has_preopened_dir: bool) -> (settings:
        StoreSettings)
        requires
            memory_limit <= usize::MAX,
        ensures
            settings@ == StoreView::for_run(
                names_of(arguments@),
                memory_limit,
                tick_limit,
                has_preopened_dir,
            ),
    {
        let mut args: Vec<String> = Vec::new();
        args.push("arg0".to_owned());
        let mut i: usize = 0;
        while i < arguments.len()
            invariant
                i <= arguments.len(),
                names_of(args@) == seq!["arg0"@] + names_of(arguments@).take(i as int),
            decreases arguments.len() - i,
        {
            let ghost before = names_of(args@);
            args.push(arguments[i].clone());
            assert(names_of(args@) =~= before.push(arguments[i as int]@));
            i += 1;
        }
        assert(names_of(arguments@).take(arguments.len() as int) =~= names_of(arguments@));
        let preopen_path = if has_preopened_dir {
            Some("/".to_owned())
        } else {
            None
        };
        StoreSettings {
            random_seed: RANDOM_SEED,
            args,
            preopen_path,
            memory_limiter: MemoryLimiter::new(memory_limit as usize),
            fuel: tick_limit,
        }
    }
}

} // verus!
