//! The leaderboard of a category on Speedrun.com: its runs, ranked.
//!
//! Asking the website is left to the host, who hands over what it
//! answered: the names of the games it found, the names of the categories
//! of the game, and the runs of the category. Two values of a run matter
//! for its rank and are kept as numbers: who ran it, as a number that is
//! the same for the same players and for no others, and how long it took,
//! as a number that is larger for a longer time and 0 for no time at all.

use crate::index::{last_place, Directory};
use vstd::prelude::*;
use vstd::seq_lib::{to_multiset_build, to_multiset_remove};

verus! {

/// The players that have been seen so far. The set itself is a
/// `hashbrown::HashSet` and is only reached through the two functions
/// below.
#[verifier::external_body]
pub struct SeenPlayers {
    set: hashbrown::HashSet<u64>,
}

/// What a [`SeenPlayers`] holds: every number that was inserted into it.
pub uninterp spec fn seen_players(seen: &SeenPlayers) -> Set<u64>;

/// Calls `hashbrown::HashSet::new`, which makes an empty set.
#[verifier::external_body]
fn seen_new() -> (seen: SeenPlayers)
    ensures
        seen_players(&seen) == Set::<u64>::empty(),
{
    SeenPlayers { set: hashbrown::HashSet::new() }
}

/// Calls `hashbrown::HashSet::insert`, which adds a value to the set and
/// returns whether the set did not hold it before.
#[verifier::external_body]
fn seen_insert(seen: &mut SeenPlayers, players: u64) -> (added: bool)
    ensures
        seen_players(final(seen)) == seen_players(old(seen)).insert(players),
        added == !seen_players(old(seen)).contains(players),
{
    seen.set.insert(players)
}

/// A run on a leaderboard.
#[derive(Clone, Copy, Debug, PartialEq, Eq, Structural)]
pub struct RunInfo {
    /// The number the host knows the run by.
    pub id: usize,
    /// Who ran the run.
    pub players: u64,
    /// How long the run took.
    pub time: u64,
}

/// A run as a leaderboard shows it.
#[derive(Clone, Copy, Debug, PartialEq, Eq, Structural)]
pub struct RunState {
    /// The rank of the run. A run is obsolete and has none if its players
    /// have a faster run on the leaderboard.
    pub rank: Option<u32>,
    /// The number the host knows the run by.
    pub run: usize,
}

/// What a leaderboard shows.
pub struct State {
    /// The runs, fastest first.
    pub runs: Vec<RunState>,
}

/// A leaderboard.
pub struct Leaderboard {
    runs: Vec<RunInfo>,
    hide_obsolete: bool,
}

/// Why there is no leaderboard.
#[derive(Clone, Copy, Debug, PartialEq, Eq, Structural)]
pub enum LeaderboardError {
    /// No game that was found has exactly the name that was asked for.
    GameNotFound,
    /// No category of the game has exactly the name that was asked for.
    CategoryNotFound,
    /// A run came without its players, although they were asked for.
    PlayersNotEmbedded,
    /// A run has a value for a variable that the game does not have.
    VariableDoesntExist,
    /// A run has a value that its variable does not have.
    VariableValueDoesntExist,
    /// A run was made on a platform that the website does not know.
    PlatformDoesntExist,
    /// A run was made in a region that the website does not know.
    RegionDoesntExist,
}

/// Whether `i` is the first place in a list of names at which a name
/// stands.
pub open spec fn is_first_named(names: Seq<String>, name: Seq<char>, i: int) -> bool {
    &&& 0 <= i < names.len()
    &&& names[i]@ == name
    &&& forall|j: int| 0 <= j < i ==> (#[trigger] names[j])@ != name
}

/// Whether a name stands nowhere in a list of names.
pub open spec fn is_not_named(names: Seq<String>, name: Seq<char>) -> bool {
    forall|j: int| 0 <= j < names.len() ==> (#[trigger] names[j])@ != name
}

/// Finds the first place at which a name stands in a list of names.
fn find_named(names: &Vec<String>, name: &String) -> (found: Option<usize>)
    ensures
        match found {
            Some(i) => is_first_named(names@, name@, i as int),
            None => is_not_named(names@, name@),
        },
{
    let mut i: usize = 0;
    while i < names.len()
        invariant
            0 <= i <= names.len(),
            forall|j: int| 0 <= j < i ==> (#[trigger] names@[j])@ != name@,
        decreases names.len() - i,
    {
        if names[i] == *name {
            return Some(i);
        }
        i = i + 1;
    }
    None
}

/// Finds the game that was asked for among the games that a search for
/// its name found, by their international names and in the order the
/// search gave them: the first whose name is exactly the name asked for.
pub fn find_game(names: &Vec<String>, game: &String) -> (found: Result<usize, LeaderboardError>)
    ensures
        match found {
            Ok(i) => is_first_named(names@, game@, i as int),
            Err(e) => e == LeaderboardError::GameNotFound && is_not_named(names@, game@),
        },
{
    match find_named(names, game) {
        Some(i) => Ok(i),
        None => Err(LeaderboardError::GameNotFound),
    }
}

/// Finds the category that was asked for among the categories of a game,
/// by their names: the first whose name is exactly the name asked for.
pub fn find_category(names: &Vec<String>, category: &String) -> (found: Result<
    usize,
    LeaderboardError,
>)
    ensures
        match found {
            Ok(i) => is_first_named(names@, category@, i as int),
            Err(e) => e == LeaderboardError::CategoryNotFound && is_not_named(names@, category@),
        },
{
    match find_named(names, category) {
        Some(i) => Ok(i),
        None => Err(LeaderboardError::CategoryNotFound),
    }
}

/// A variable of a game as the website answers it: its number and the
/// numbers of the values it can take.
pub struct Variable {
    /// The number of the variable.
    pub id: u32,
    /// The numbers of the values of the variable.
    pub values: Vec<u32>,
}

/// The variables of a game, to be found by their numbers, each with its
/// values, to be found by theirs.
pub struct Variables {
    variables: Directory,
    values: Vec<Directory>,
}

impl Variables {
    /// The numbers of the variables.
    pub closed spec fn ids(&self) -> Seq<u32> {
        self.variables.ids()
    }

    /// The numbers of the values of the variable at a place.
    pub closed spec fn value_ids(&self, place: int) -> Seq<u32> {
        self.values@[place].ids()
    }

    /// Every variable has its values.
    pub closed spec fn wf(&self) -> bool {
        &&& self.variables.wf()
        &&& self.values@.len() == self.variables.ids().len()
        &&& forall|i: int| 0 <= i < self.values@.len() ==> (#[trigger] self.values@[i]).wf()
    }

    /// Makes the variables of a game ready to be looked up.
    pub fn new(variables: &Vec<Variable>) -> (ready: Variables)
        ensures
            ready.wf(),
            ready.ids().len() == variables@.len(),
            forall|i: int| 0 <= i < variables@.len() ==> #[trigger] ready.ids()[i] == variables@[i].id,
            forall|i: int|
                0 <= i < variables@.len() ==> #[trigger] ready.value_ids(i) == variables@[i].values@,
    {
        let mut ids: Vec<u32> = Vec::new();
        let mut values: Vec<Directory> = Vec::new();
        let mut i: usize = 0;
        while i < variables.len()
            invariant
                0 <= i <= variables.len(),
                ids@.len() == i,
                values@.len() == i,
                forall|k: int| 0 <= k < i ==> #[trigger] ids@[k] == variables@[k].id,
                forall|k: int|
                    0 <= k < i ==> (#[trigger] values@[k]).wf() && values@[k].ids()
                        == variables@[k].values@,
            decreases variables.len() - i,
        {
            ids.push(variables[i].id);
            values.push(Directory::new(&variables[i].values));
            i = i + 1;
        }
        Variables { variables: Directory::new(&ids), values }
    }
}

/// A run as the website answers it, as far as it has to be looked up: who
/// ran it, if the answer says, how long it took, on which platform and in
/// which region it was made, and the value it has for each of its
/// variables, as pairs of the number of the variable and the number of the
/// value.
pub struct RunAnswer {
    /// The number the host knows the run by.
    pub id: usize,
    /// Who ran the run. `None` where the answer does not hold the players.
    pub players: Option<u64>,
    /// How long the run took.
    pub time: u64,
    /// The number of the platform.
    pub platform: u32,
    /// The number of the region, if the run has one.
    pub region: Option<u32>,
    /// The values of the variables.
    pub values: Vec<(u32, u32)>,
}

/// A run with everything found that it names: places in the lists of
/// platforms, regions, variables and values that the website answered.
pub struct RunDetails {
    /// What the rank of the run goes by.
    pub info: RunInfo,
    /// The place of the platform.
    pub platform: usize,
    /// The place of the region, if the run has one.
    pub region: Option<usize>,
    /// For every variable of the run, the place of the variable and the
    /// place of the value among the values of that variable.
    pub variables: Vec<(usize, usize)>,
}

/// Where a value of a variable is found: the place of the variable, and
/// the place of the value among the values of that variable.
pub open spec fn spec_value(variables: &Variables, pair: (u32, u32)) -> Result<
    (usize, usize),
    LeaderboardError,
> {
    match last_place(variables.ids(), pair.0) {
        None => Err(LeaderboardError::VariableDoesntExist),
        Some(variable) => match last_place(variables.value_ids(variable), pair.1) {
            None => Err(LeaderboardError::VariableValueDoesntExist),
            Some(value) => Ok((variable as usize, value as usize)),
        },
    }
}

/// Where the first `n` values of a run are found. The first value that is
/// not found decides the error.
pub open spec fn spec_values(variables: &Variables, pairs: Seq<(u32, u32)>, n: int) -> Result<
    Seq<(usize, usize)>,
    LeaderboardError,
>
    decreases n,
{
    if n <= 0 {
        Ok(Seq::empty())
    } else {
        match spec_values(variables, pairs, n - 1) {
            Err(e) => Err(e),
            Ok(before) => match spec_value(variables, pairs[n - 1]) {
                Err(e) => Err(e),
                Ok(found) => Ok(before.push(found)),
            },
        }
    }
}

/// Once a value is not found, the values after it do not matter.
proof fn lemma_values_error(variables: &Variables, pairs: Seq<(u32, u32)>, k: int, n: int)
    requires
        0 <= k <= n,
        spec_values(variables, pairs, k) is Err,
    ensures
        spec_values(variables, pairs, n) == spec_values(variables, pairs, k),
    decreases n - k,
{
    if k < n {
        lemma_values_error(variables, pairs, k, n - 1);
    }
}

/// What looking up a run gives: an error for the first thing that is
/// missing, asked in this order: the players, the platform, the region,
/// the values of the variables; and the run with all its places where
/// nothing is missing.
pub open spec fn spec_assemble(
    answer: &RunAnswer,
    platforms: Seq<u32>,
    regions: Seq<u32>,
    variables: &Variables,
) -> Result<(RunInfo, int, Option<int>, Seq<(usize, usize)>), LeaderboardError> {
    match answer.players {
        None => Err(LeaderboardError::PlayersNotEmbedded),
        Some(players) => match last_place(platforms, answer.platform) {
            None => Err(LeaderboardError::PlatformDoesntExist),
            Some(platform) => if answer.region is Some && last_place(regions, answer.region->0)
                is None {
                Err(LeaderboardError::RegionDoesntExist)
            } else {
                match spec_values(variables, answer.values@, answer.values@.len() as int) {
                    Err(e) => Err(e),
                    Ok(found) => Ok(
                        (
                            RunInfo { id: answer.id, players, time: answer.time },
                            platform,
                            match answer.region {
                                Some(region) => last_place(regions, region),
                                None => None,
                            },
                            found,
                        ),
                    ),
                }
            },
        },
    }
}

/// A run with its places, as a plain value.
pub open spec fn details_view(details: RunDetails) -> (RunInfo, int, Option<int>, Seq<
    (usize, usize),
>) {
    (
        details.info,
        details.platform as int,
        match details.region {
            Some(region) => Some(region as int),
            None => None,
        },
        details.variables@,
    )
}

/// Looks up everything a run names in what the website answered.
pub fn assemble(
    answer: &RunAnswer,
    platforms: &Directory,
    regions: &Directory,
    variables: &Variables,
) -> (run: Result<RunDetails, LeaderboardError>)
    requires
        platforms.wf(),
        regions.wf(),
        variables.wf(),
    ensures
        match run {
            Ok(details) => spec_assemble(answer, platforms.ids(), regions.ids(), variables) == Ok::<
                (RunInfo, int, Option<int>, Seq<(usize, usize)>),
                LeaderboardError,
            >(details_view(details)),
            Err(e) => spec_assemble(answer, platforms.ids(), regions.ids(), variables) == Err::<
                (RunInfo, int, Option<int>, Seq<(usize, usize)>),
                LeaderboardError,
            >(e),
        },
{
    let players: u64 = match answer.players {
        Some(players) => players,
        None => {
            return Err(LeaderboardError::PlayersNotEmbedded);
        },
    };
    let platform: usize = match platforms.find(answer.platform) {
        Some(platform) => platform,
        None => {
            return Err(LeaderboardError::PlatformDoesntExist);
        },
    };
    let region: Option<usize> = match answer.region {
        None => None,
        Some(region) => match regions.find(region) {
            Some(place) => Some(place),
            None => {
                return Err(LeaderboardError::RegionDoesntExist);
            },
        },
    };
    let mut found: Vec<(usize, usize)> = Vec::new();
    let mut i: usize = 0;
    while i < answer.values.len()
        invariant
            0 <= i <= answer.values@.len(),
            variables.wf(),
            answer.players == Some(players),
            last_place(platforms.ids(), answer.platform) == Some(platform as int),
            match answer.region {
                Some(asked) => region is Some && last_place(regions.ids(), asked) == Some(
                    region->0 as int,
                ),
                None => region is None,
            },
            spec_values(variables, answer.values@, i as int) == Ok::<
                Seq<(usize, usize)>,
                LeaderboardError,
            >(found@),
        decreases answer.values@.len() - i,
    {
        let pair: (u32, u32) = answer.values[i];
        proof {
            if spec_values(variables, answer.values@, i as int + 1) is Err {
                lemma_values_error(
                    variables,
                    answer.values@,
                    i as int + 1,
                    answer.values@.len() as int,
                );
            }
        }
        let variable: usize = match variables.variables.find(pair.0) {
            Some(variable) => variable,
            None => {
                return Err(LeaderboardError::VariableDoesntExist);
            },
        };
        let value: usize = match variables.values[variable].find(pair.1) {
            Some(value) => value,
            None => {
                return Err(LeaderboardError::VariableValueDoesntExist);
            },
        };
        found.push((variable, value));
        i = i + 1;
    }
    Ok(
        RunDetails {
            info: RunInfo { id: answer.id, players, time: answer.time },
            platform,
            region,
            variables: found,
        },
    )
}

/// Whether runs are in the order of their times, the fastest first.
pub open spec fn is_sorted(runs: Seq<RunInfo>) -> bool {
    forall|i: int, j: int| 0 <= i <= j < runs.len() ==> runs[i].time <= runs[j].time
}

/// Where a run of the given time finds its place among sorted runs,
/// looking from index `from` on: in front of the first run that took
/// longer, and so behind every run of its own time.
pub open spec fn place(sorted: Seq<RunInfo>, time: u64, from: int) -> int
    decreases sorted.len() - from,
{
    if from < 0 || from >= sorted.len() {
        sorted.len() as int
    } else if sorted[from].time > time {
        from
    } else {
        place(sorted, time, from + 1)
    }
}

/// The first `n` runs in the order of their times, the fastest first.
/// Runs of the same time stay in the order they came in.
pub open spec fn sorted_runs(runs: Seq<RunInfo>, n: int) -> Seq<RunInfo>
    decreases n,
{
    if n <= 0 {
        Seq::empty()
    } else {
        let before = sorted_runs(runs, n - 1);
        before.insert(place(before, runs[n - 1].time, 0), runs[n - 1])
    }
}

/// A run finds its place behind the runs that took no longer and in front
/// of the runs that took longer.
pub proof fn lemma_place(sorted: Seq<RunInfo>, time: u64, from: int)
    requires
        0 <= from <= sorted.len(),
        is_sorted(sorted),
        forall|j: int| 0 <= j < from ==> (#[trigger] sorted[j]).time <= time,
    ensures
        from <= place(sorted, time, from) <= sorted.len(),
        forall|j: int|
            0 <= j < place(sorted, time, from) ==> (#[trigger] sorted[j]).time <= time,
        forall|j: int|
            place(sorted, time, from) <= j < sorted.len() ==> (#[trigger] sorted[j]).time > time,
    decreases sorted.len() - from,
{
    if from < sorted.len() {
        if sorted[from].time > time {
            assert forall|j: int| from <= j < sorted.len() implies (#[trigger] sorted[j]).time
                > time by {
                assert(sorted[from].time <= sorted[j].time);
            }
        } else {
            lemma_place(sorted, time, from + 1);
        }
    }
}

/// Sorting loses no run, adds none, and puts the runs in the order of
/// their times.
pub proof fn lemma_sorted_runs(runs: Seq<RunInfo>, n: int)
    requires
        0 <= n <= runs.len(),
    ensures
        sorted_runs(runs, n).len() == n,
        is_sorted(sorted_runs(runs, n)),
        sorted_runs(runs, n).to_multiset() == runs.take(n).to_multiset(),
    decreases n,
{
    if n > 0 {
        lemma_sorted_runs(runs, n - 1);
        let before = sorted_runs(runs, n - 1);
        let run = runs[n - 1];
        let at = place(before, run.time, 0);
        lemma_place(before, run.time, 0);
        let after = before.insert(at, run);
        assert(is_sorted(after)) by {
            assert forall|i: int, j: int| 0 <= i <= j < after.len() implies after[i].time
                <= after[j].time by {
                if i < at && j > at {
                    assert(after[i] == before[i] && after[j] == before[j - 1]);
                } else if i < at && j < at {
                    assert(after[i] == before[i] && after[j] == before[j]);
                } else if i > at {
                    assert(after[i] == before[i - 1] && after[j] == before[j - 1]);
                } else if i == at && j > at {
                    assert(after[j] == before[j - 1]);
                } else if j == at && i < at {
                    assert(after[i] == before[i]);
                }
            }
        }
        assert(after.remove(at) =~= before);
        to_multiset_remove(after, at);
        assert(after[at] == run);
        assert(runs.take(n) =~= runs.take(n - 1).push(run));
        to_multiset_build(runs.take(n - 1), run);
        after.to_multiset_ensures();
        assert(after.contains(run));
        assert(after.to_multiset() =~= before.to_multiset().insert(run));
    } else {
        assert(runs.take(0) =~= Seq::<RunInfo>::empty());
    }
}

/// Whether the players of the run `i` have a run before it.
pub open spec fn is_obsolete(runs: Seq<RunInfo>, i: int) -> bool {
    exists|j: int| 0 <= j < i && (#[trigger] runs[j]).players == runs[i].players
}

/// The count that is kept while the first `n` runs are ranked: the number
/// of runs that have a rank, the rank that was given out last, and the time
/// it was given out for.
pub open spec fn ranking(runs: Seq<RunInfo>, n: int) -> (int, int, int)
    decreases n,
{
    if n <= 0 {
        (0, 0, 0)
    } else {
        let (ranked, last_rank, last_time) = ranking(runs, n - 1);
        if is_obsolete(runs, n - 1) {
            (ranked, last_rank, last_time)
        } else if runs[n - 1].time > last_time {
            (ranked + 1, ranked + 1, runs[n - 1].time as int)
        } else {
            (ranked + 1, last_rank, last_time)
        }
    }
}

/// The rank of the run `i`: none for an obsolete run; for any other the
/// number of runs with a rank up to it, unless it took no longer than the
/// run ranked before it, whose rank it then shares.
pub open spec fn rank_of(runs: Seq<RunInfo>, i: int) -> Option<u32> {
    if is_obsolete(runs, i) {
        None
    } else {
        Some(ranking(runs, i + 1).1 as u32)
    }
}

/// The first `n` runs as the leaderboard shows them.
pub open spec fn shown(runs: Seq<RunInfo>, hide_obsolete: bool, n: int) -> Seq<RunState>
    decreases n,
{
    if n <= 0 {
        Seq::empty()
    } else if hide_obsolete && is_obsolete(runs, n - 1) {
        shown(runs, hide_obsolete, n - 1)
    } else {
        shown(runs, hide_obsolete, n - 1).push(
            RunState { rank: rank_of(runs, n - 1), run: runs[n - 1].id },
        )
    }
}

/// The number of runs among the first `n` that have a rank.
pub open spec fn ranked_runs(runs: Seq<RunInfo>, n: int) -> int
    decreases n,
{
    if n <= 0 {
        0
    } else if is_obsolete(runs, n - 1) {
        ranked_runs(runs, n - 1)
    } else {
        ranked_runs(runs, n - 1) + 1
    }
}

/// The number of runs among the first `n` that have a rank and took less
/// than the given time.
pub open spec fn faster_runs(runs: Seq<RunInfo>, time: int, n: int) -> int
    decreases n,
{
    if n <= 0 {
        0
    } else if !is_obsolete(runs, n - 1) && runs[n - 1].time < time {
        faster_runs(runs, time, n - 1) + 1
    } else {
        faster_runs(runs, time, n - 1)
    }
}

/// Where every ranked run among the first `n` took less than a time, the
/// runs that took less are all the ranked runs.
proof fn lemma_all_faster(runs: Seq<RunInfo>, time: int, n: int)
    requires
        0 <= n <= runs.len(),
        forall|j: int| 0 <= j < n && !is_obsolete(runs, j) ==> (#[trigger] runs[j]).time < time,
    ensures
        faster_runs(runs, time, n) == ranked_runs(runs, n),
    decreases n,
{
    if n > 0 {
        lemma_all_faster(runs, time, n - 1);
        if !is_obsolete(runs, n - 1) {
            assert(runs[n - 1].time < time);
        }
    }
}

/// What the count that is kept means on runs that are sorted and took
/// more than no time: the number of ranked runs, the rank of the slowest of
/// them, and its time.
proof fn lemma_ranking(runs: Seq<RunInfo>, n: int)
    requires
        0 <= n <= runs.len(),
        is_sorted(runs),
        forall|k: int| 0 <= k < runs.len() ==> (#[trigger] runs[k]).time > 0,
    ensures
        ranking(runs, n).0 == ranked_runs(runs, n),
        forall|j: int|
            0 <= j < n && !is_obsolete(runs, j) ==> (#[trigger] runs[j]).time <= ranking(
                runs,
                n,
            ).2,
        forall|k: int| n <= k < runs.len() ==> ranking(runs, n).2 <= (#[trigger] runs[k]).time,
        ranking(runs, n).0 == 0 ==> ranking(runs, n).2 == 0,
        ranking(runs, n).0 > 0 ==> ranking(runs, n).1 == 1 + faster_runs(
            runs,
            ranking(runs, n).2,
            n,
        ),
    decreases n,
{
    if n > 0 {
        lemma_ranking(runs, n - 1);
        lemma_ranking_bounds(runs, n - 1);
        let (ranked, last_rank, last_time) = ranking(runs, n - 1);
        let run = runs[n - 1];
        assert(last_time <= run.time);
        assert forall|k: int| n <= k < runs.len() implies ranking(runs, n).2 <= (
        #[trigger] runs[k]).time by {
            assert(runs[n - 1].time <= runs[k].time);
        }
        if !is_obsolete(runs, n - 1) {
            if run.time > last_time {
                assert forall|j: int| 0 <= j < n - 1 && !is_obsolete(runs, j) implies (
                #[trigger] runs[j]).time < run.time by {}
                lemma_all_faster(runs, run.time as int, n - 1);
            }
        }
    }
}

/// On a leaderboard whose runs are sorted and took more than no time, the
/// rank of a run is one more than the number of ranked runs that took less
/// time: the fastest runs have rank 1, and runs of the same time share
/// their rank.
pub proof fn lemma_rank_counts_faster_runs(runs: Seq<RunInfo>, i: int)
    requires
        is_sorted(runs),
        forall|k: int| 0 <= k < runs.len() ==> (#[trigger] runs[k]).time > 0,
        0 <= i < runs.len(),
        !is_obsolete(runs, i),
    ensures
        ranking(runs, i + 1).1 == 1 + faster_runs(runs, runs[i].time as int, i),
        runs.len() <= u32::MAX ==> rank_of(runs, i) == Some(
            (1 + faster_runs(runs, runs[i].time as int, i)) as u32,
        ),
{
    lemma_ranking(runs, i);
    lemma_ranking(runs, i + 1);
    lemma_ranking_bounds(runs, i + 1);
    let (ranked, last_rank, last_time) = ranking(runs, i);
    if runs[i].time > last_time {
        assert forall|j: int| 0 <= j < i && !is_obsolete(runs, j) implies (#[trigger] runs[j]).time
            < runs[i].time by {}
        lemma_all_faster(runs, runs[i].time as int, i);
    } else {
        assert(runs[i].time == last_time);
        assert(ranked > 0);
    }
}

/// No more runs have a rank than there are runs.
pub proof fn lemma_ranking_bounds(runs: Seq<RunInfo>, n: int)
    requires
        0 <= n <= runs.len(),
    ensures
        0 <= ranking(runs, n).1 <= ranking(runs, n).0 <= n,
    decreases n,
{
    if n > 0 {
        lemma_ranking_bounds(runs, n - 1);
    }
}

impl Leaderboard {
    /// The runs of the leaderboard.
    pub closed spec fn runs(&self) -> Seq<RunInfo> {
        self.runs@
    }

    /// Whether obsolete runs are hidden.
    pub closed spec fn hides_obsolete(&self) -> bool {
        self.hide_obsolete
    }

    /// Creates a leaderboard of the given runs, fastest first. It hides
    /// obsolete runs.
    pub fn new(runs: Vec<RunInfo>) -> (leaderboard: Leaderboard)
        ensures
            leaderboard.runs() == sorted_runs(runs@, runs@.len() as int),
            leaderboard.hides_obsolete(),
    {
        let mut sorted: Vec<RunInfo> = Vec::new();
        let mut i: usize = 0;
        while i < runs.len()
            invariant
                0 <= i <= runs.len(),
                sorted@ == sorted_runs(runs@, i as int),
                sorted@.len() == i,
            decreases runs.len() - i,
        {
            let run: RunInfo = runs[i];
            let mut at: usize = 0;
            while at < sorted.len() && sorted[at].time <= run.time
                invariant
                    0 <= at <= sorted@.len(),
                    place(sorted@, run.time, 0) == place(sorted@, run.time, at as int),
                decreases sorted@.len() - at,
            {
                at = at + 1;
            }
            sorted.insert(at, run);
            i = i + 1;
        }
        Leaderboard { runs: sorted, hide_obsolete: true }
    }

    /// Ranks the runs.
    ///
    /// There may be no more runs than a rank can count.
    pub fn state(&self) -> (state: State)
        requires
            self.runs().len() <= u32::MAX,
        ensures
            state.runs@ == shown(self.runs(), self.hides_obsolete(), self.runs().len() as int),
    {
        let mut seen_before = seen_new();
        let mut last_time: u64 = 0;
        let mut rank: u32 = 0;
        let mut last_rank: u32 = 0;
        let mut runs: Vec<RunState> = Vec::new();
        let mut i: usize = 0;
        while i < self.runs.len()
            invariant
                0 <= i <= self.runs@.len(),
                self.runs@.len() <= u32::MAX,
                forall|players: u64| #[trigger]
                    seen_players(&seen_before).contains(players) <==> exists|j: int|
                        0 <= j < i && (#[trigger] self.runs@[j]).players == players,
                (rank as int, last_rank as int, last_time as int) == ranking(self.runs@, i as int),
                rank <= i,
                runs@ == shown(self.runs@, self.hide_obsolete, i as int),
            decreases self.runs@.len() - i,
        {
            let run: RunInfo = self.runs[i];
            let ghost seen = seen_players(&seen_before);
            let obsolete: bool = !seen_insert(&mut seen_before, run.players);
            proof {
                assert(obsolete == is_obsolete(self.runs@, i as int));
                assert forall|players: u64| #[trigger]
                    seen_players(&seen_before).contains(players) <==> exists|j: int|
                        0 <= j < i + 1 && (#[trigger] self.runs@[j]).players == players by {
                    if seen.contains(players) {
                        let j = choose|j: int|
                            0 <= j < i && (#[trigger] self.runs@[j]).players == players;
                        assert(0 <= j < i + 1 && self.runs@[j].players == players);
                    }
                    if players == run.players {
                        assert(self.runs@[i as int].players == players);
                    }
                }
                lemma_ranking_bounds(self.runs@, i as int + 1);
            }
            let this_rank: Option<u32> = if obsolete {
                None
            } else {
                rank = rank + 1;
                if run.time > last_time {
                    last_time = run.time;
                    last_rank = rank;
                    Some(rank)
                } else {
                    Some(last_rank)
                }
            };
            if !(obsolete && self.hide_obsolete) {
                runs.push(RunState { rank: this_rank, run: run.id });
            }
            i = i + 1;
        }
        State { runs }
    }

    /// Says whether obsolete runs are hidden.
    pub fn set_hide_obsolete(&mut self, hide_obsolete: bool)
        ensures
            final(self).runs() == old(self).runs(),
            final(self).hides_obsolete() == hide_obsolete,
    {
        self.hide_obsolete = hide_obsolete;
    }
}

} // verus!
