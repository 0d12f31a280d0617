//! Ranking and filtering of discovered applications, and the search for the
//! default installation.

use vstd::prelude::*;

use crate::app::{allows, better, wolfram_version_of, Filter, WolframApp};
use crate::app_type::usefulness;
use crate::version::version_lt;
use crate::config::{Environment, RUST_WOLFRAM_LOCATION, WOLFRAM_APP_DIRECTORY};
use crate::error::{Error, ErrorKind};
use vstd::multiset::Multiset;

verus! {

broadcast use vstd::seq_lib::group_to_multiset_ensures;

/// No application of `s` ranks above one that comes before it.
pub open spec fn sorted_by_rank(s: Seq<WolframApp>) -> bool {
    forall|i: int, j: int| 0 <= i < j < s.len() ==> !better(#[trigger] s[j], #[trigger] s[i])
}

/// `r` holds the applications of `found`, best first.
pub open spec fn is_discovery_order(found: Seq<WolframApp>, r: Seq<WolframApp>) -> bool {
    &&& r.to_multiset() == found.to_multiset()
    &&& sorted_by_rank(r)
}

/// `r` holds the applications of `found` that `filter` accepts, best first.
pub open spec fn is_filtered_discovery_order(found: Seq<WolframApp>, filter: Filter, r: Seq<WolframApp>) -> bool {
    &&& forall|a: WolframApp| #[trigger] r.to_multiset().count(a) == if allows(filter, a.app_type) {
        found.to_multiset().count(a)
    } else {
        0
    }
    &&& sorted_by_rank(r)
}

/// In a discovery order, an application that ranks above another comes
/// before it.
pub proof fn lemma_better_comes_first(found: Seq<WolframApp>, r: Seq<WolframApp>, i: int, j: int)
    requires
        is_discovery_order(found, r),
        0 <= i < r.len(),
        0 <= j < r.len(),
        better(r[i], r[j]),
    ensures
        i < j,
{
    crate::app::lemma_better_order(r[i], r[j], r[j]);
    if j < i {
        assert(!better(r[i], r[j]));
    }
}

/// Discovering two applications, where `a` has the newer Wolfram Language
/// version, or the same version and the more useful product type, lists `a`
/// first and `b` second, whatever order they were found in.
pub proof fn lemma_discovery_ranks_by_version_then_type(found: Seq<WolframApp>, a: WolframApp, b: WolframApp, r: Seq<WolframApp>)
    requires
        found == seq![a, b] || found == seq![b, a],
        a.app_version.major != 0,
        b.app_version.major != 0,
        version_lt(wolfram_version_of(b)->Some_0, wolfram_version_of(a)->Some_0) || (wolfram_version_of(a)
            == wolfram_version_of(b) && usefulness(b.app_type) < usefulness(a.app_type)),
        is_discovery_order(found, r),
    ensures
        r == seq![a, b],
{
    crate::app::lemma_better_by_version_then_type(a, b);
    crate::app::lemma_better_order(a, b, b);
    crate::app::lemma_better_order(a, a, a);
    assert(a != b);
    assert(found.to_multiset().count(a) == 1) by {
        assert(found.to_multiset() =~= Multiset::empty().insert(found[0]).insert(found[1])) by {
            assert(found =~= Seq::<WolframApp>::empty().push(found[0]).push(found[1]));
        }
    }
    assert(found.to_multiset().count(b) == 1) by {
        assert(found.to_multiset() =~= Multiset::empty().insert(found[0]).insert(found[1])) by {
            assert(found =~= Seq::<WolframApp>::empty().push(found[0]).push(found[1]));
        }
    }
    assert(r.to_multiset().len() == r.len());
    assert(found.to_multiset().len() == found.len());
    assert(r.len() == 2);
    assert(r.to_multiset().count(a) > 0);
    assert(r.to_multiset().count(b) > 0);
    assert(r.contains(a));
    assert(r.contains(b));
    let ia = choose|k: int| 0 <= k < r.len() && r[k] == a;
    let ib = choose|k: int| 0 <= k < r.len() && r[k] == b;
    lemma_better_comes_first(found, r, ia, ib);
    assert(ia == 0 && ib == 1);
    assert(r =~= seq![a, b]);
}

/// A filtered discovery holds only applications whose product type the
/// filter accepts.
pub proof fn lemma_filter_excludes(found: Seq<WolframApp>, filter: Filter, r: Seq<WolframApp>, i: int)
    requires
        is_filtered_discovery_order(found, filter, r),
        0 <= i < r.len(),
    ensures
        allows(filter, r[i].app_type),
{
    assert(r.to_multiset().count(r[i]) > 0);
}

/// With the filter that accepts every product type, a filtered discovery is
/// a discovery of everything found.
pub proof fn lemma_allow_all_keeps_everything(found: Seq<WolframApp>, filter: Filter, r: Seq<WolframApp>)
    requires
        filter.app_types is None,
        is_filtered_discovery_order(found, filter, r),
    ensures
        is_discovery_order(found, r),
{
    assert(r.to_multiset() =~= found.to_multiset());
}

proof fn lemma_insert_to_multiset(s: Seq<WolframApp>, pos: int, x: WolframApp)
    requires
        0 <= pos <= s.len(),
    ensures
        s.insert(pos, x).to_multiset() =~= s.to_multiset().insert(x),
{
    let t = s.insert(pos, x);
    assert(t.remove(pos) =~= s);
    assert(t[pos] == x);
    assert(t.remove(pos).to_multiset() =~= t.to_multiset().remove(x));
    assert(t.contains(x));
}

/// Orders the applications that the platform adapters found, best first:
/// newest Wolfram Language version first (a missing version last), then the
/// most useful product type; ties keep no particular order.
pub fn discover(found: Vec<WolframApp>) -> (r: Vec<WolframApp>)
    ensures
        is_discovery_order(found@, r@),
{
    let ghost all = found@;
    let mut rest = found;
    let mut out: Vec<WolframApp> = Vec::new();
    while rest.len() > 0
        invariant
            out@.to_multiset().add(rest@.to_multiset()) == all.to_multiset(),
            sorted_by_rank(out@),
        decreases rest@.len(),
    {
        let ghost before_rest = rest@;
        let app = rest.pop().unwrap();
        proof {
            assert(before_rest =~= rest@.push(app));
        }
        let mut pos: usize = 0;
        while pos < out.len() && !better_than(&app, &out[pos])
            invariant
                pos <= out@.len(),
                forall|k: int| 0 <= k < pos ==> !better(app, #[trigger] out@[k]),
            decreases out@.len() - pos,
        {
            pos = pos + 1;
        }
        let ghost before = out@;
        out.insert(pos, app);
        proof {
            lemma_insert_to_multiset(before, pos as int, app);
            assert(out@ == before.insert(pos as int, app));
            before.insert_ensures(pos as int, app);
            assert forall|i: int, j: int| 0 <= i < j < out@.len() implies !better(
                #[trigger] out@[j],
                #[trigger] out@[i],
            ) by {
                if j < pos {
                    assert(out@[i] == before[i] && out@[j] == before[j]);
                } else if j == pos {
                    assert(out@[i] == before[i]);
                } else if i == pos {
                    assert(out@[j] == before[j - 1]);
                    assert(better(app, before[pos as int]));
                    if j - 1 > pos {
                        assert(!better(before[j - 1], before[pos as int]));
                    }
                    crate::app::lemma_better_order(app, before[pos as int], before[j - 1]);
                    crate::app::lemma_better_order(before[j - 1], app, app);
                } else if i < pos {
                    assert(out@[i] == before[i] && out@[j] == before[j - 1]);
                } else {
                    assert(out@[i] == before[i - 1] && out@[j] == before[j - 1]);
                }
            }
        }
    }
    proof {
        assert(rest@.to_multiset() =~= Multiset::empty());
        assert(out@.to_multiset() =~= all.to_multiset());
    }
    out
}

/// `a` ranks strictly above `b`.
fn better_than(a: &WolframApp, b: &WolframApp) -> (r: bool)
    ensures
        r == better(*a, *b),
{
    match WolframApp::best_order(a, b) {
        core::cmp::Ordering::Greater => true,
        _ => false,
    }
}

/// The applications that the platform adapters found and that `filter`
/// accepts, best first.
pub fn discover_with_filter(found: Vec<WolframApp>, filter: &Filter) -> (r: Vec<WolframApp>)
    ensures
        is_filtered_discovery_order(found@, *filter, r@),
        forall|i: int| 0 <= i < r@.len() ==> allows(*filter, #[trigger] r@[i].app_type),
        filter.app_types is None ==> is_discovery_order(found@, r@),
{
    let ghost all = found@;
    let sorted = discover(found);
    let ghost ordered = sorted@;
    let mut rest = sorted;
    let mut out: Vec<WolframApp> = Vec::new();
    let ghost mut taken: int = 0;
    while rest.len() > 0
        invariant
            0 <= taken <= ordered.len(),
            rest@ == ordered.subrange(taken, ordered.len() as int),
            is_discovery_order(all, ordered),
            sorted_by_rank(out@),
            forall|i: int, j: int|
                0 <= i < out@.len() && taken <= j < ordered.len() ==> !better(
                    #[trigger] ordered[j],
                    #[trigger] out@[i],
                ),
            forall|a: WolframApp| #[trigger] out@.to_multiset().count(a) == if allows(*filter, a.app_type) {
                ordered.subrange(0, taken).to_multiset().count(a)
            } else {
                0
            },
            forall|i: int| 0 <= i < out@.len() ==> allows(*filter, #[trigger] out@[i].app_type),
        decreases rest@.len(),
    {
        let app = rest.remove(0);
        assert(app == ordered[taken]);
        proof {
            assert(ordered.subrange(0, taken + 1) =~= ordered.subrange(0, taken).push(app));
        }
        if filter.check_app(&app).is_ok() {
            let ghost before = out@;
            out.push(app);
            proof {
                assert(out@ =~= before.push(app));
                assert forall|i: int, j: int| 0 <= i < j < out@.len() implies !better(
                    #[trigger] out@[j],
                    #[trigger] out@[i],
                ) by {
                    if j == before.len() {
                        assert(!better(ordered[taken], before[i]));
                    } else {
                        assert(out@[i] == before[i] && out@[j] == before[j]);
                    }
                }
                assert forall|i: int, j: int|
                    0 <= i < out@.len() && taken + 1 <= j < ordered.len() implies !better(
                    #[trigger] ordered[j],
                    #[trigger] out@[i],
                ) by {
                    if i < before.len() {
                        assert(out@[i] == before[i]);
                    } else {
                        assert(out@[i] == ordered[taken]);
                    }
                }
                assert forall|i: int| 0 <= i < out@.len() implies allows(*filter, #[trigger] out@[i].app_type) by {
                    if i < before.len() {
                        assert(out@[i] == before[i]);
                    }
                }
            }
        } else {
            proof {
                assert forall|i: int, j: int|
                    0 <= i < out@.len() && taken + 1 <= j < ordered.len() implies !better(
                    #[trigger] ordered[j],
                    #[trigger] out@[i],
                ) by {
                    assert(taken <= j);
                }
            }
        }
        proof {
            taken = taken + 1;
        }
        assert(rest@ =~= ordered.subrange(taken, ordered.len() as int));
    }
    proof {
        assert(ordered.subrange(0, taken) =~= ordered);
        if filter.app_types is None {
            assert(out@.to_multiset() =~= all.to_multiset());
        }
    }
    out
}

/// What the search for the default installation does first.
#[derive(Debug, Clone)]
pub enum DefaultStep {
    /// Read the application at an installation directory that an environment
    /// variable names: an explicit choice, whose failures are final.
    ExplicitInstallationDirectory { variable: &'static str, dir: String },
    /// Read the application at an application directory that an environment
    /// variable names: an explicit choice, whose failures are final.
    ExplicitAppDirectory { variable: &'static str, dir: String },
    /// Ask the helper tool for its installation directory.
    QueryHelper,
}

/// The first step of the search for the default installation: the
/// deprecated installation-directory variable, else the application-directory
/// variable, else the helper tool.
pub fn first_default_step(env: &Environment) -> (r: DefaultStep)
    ensures
        env.rust_wolfram_location is Some ==> r is ExplicitInstallationDirectory
            && r->ExplicitInstallationDirectory_variable@ == RUST_WOLFRAM_LOCATION@
            && r->ExplicitInstallationDirectory_dir@ == env.rust_wolfram_location->Some_0@,
        env.rust_wolfram_location is None && env.wolfram_app_directory is Some ==> r is ExplicitAppDirectory
            && r->ExplicitAppDirectory_variable@ == WOLFRAM_APP_DIRECTORY@
            && r->ExplicitAppDirectory_dir@ == env.wolfram_app_directory->Some_0@,
        env.rust_wolfram_location is None && env.wolfram_app_directory is None ==> r is QueryHelper,
{
    match &env.rust_wolfram_location {
        Some(dir) => DefaultStep::ExplicitInstallationDirectory {
            variable: RUST_WOLFRAM_LOCATION,
            dir: dir.clone(),
        },
        None => match &env.wolfram_app_directory {
            Some(dir) => DefaultStep::ExplicitAppDirectory {
                variable: WOLFRAM_APP_DIRECTORY,
                dir: dir.clone(),
            },
            None => DefaultStep::QueryHelper,
        },
    }
}

/// `e` reports that the application named by `variable` did not pass the
/// filter.
pub open spec fn is_mismatch_error(e: Error, variable: Seq<char>, app: WolframApp) -> bool {
    &&& e.kind is SpecifiedAppDoesNotMatchFilter
    &&& e.kind->SpecifiedAppDoesNotMatchFilter_environment_variable@ == variable
    &&& e.kind->SpecifiedAppDoesNotMatchFilter_filter_err->FilterDoesNotMatchAppType_app_type == app.app_type
}

/// `e` reports that the application named by `variable` has a product type
/// outside the allowed types of `filter`, and lists them.
pub open spec fn is_full_mismatch_error(e: Error, variable: Seq<char>, app: WolframApp, filter: Filter) -> bool {
    &&& is_mismatch_error(e, variable, app)
    &&& e.kind->SpecifiedAppDoesNotMatchFilter_filter_err->FilterDoesNotMatchAppType_allowed@
        == filter.app_types->Some_0@
}

/// The outcome of an application that an environment variable chose: it is
/// the answer if it could be read and passes the filter; otherwise the search
/// fails, since the user's explicit choice cannot be honoured.
pub fn explicit_choice(filter: &Filter, variable: &'static str, built: Result<WolframApp, Error>) -> (r: Result<WolframApp, Error>)
    ensures
        built is Err ==> r == built,
        built is Ok && allows(*filter, built->Ok_0.app_type) ==> r == built,
        built is Ok && !allows(*filter, built->Ok_0.app_type) ==> r is Err && is_full_mismatch_error(
            r->Err_0,
            variable@,
            built->Ok_0,
            *filter,
        ),
{
    match built {
        Ok(app) => match filter.check_app(&app) {
            Ok(()) => Ok(app),
            Err(filter_err) => Err(Error::app_does_not_match_filter(variable, filter_err)),
        },
        Err(err) => Err(err),
    }
}

/// What the helper tool's answer leads to: an application that passes the
/// filter is the answer; one that does not, or one on a platform where it
/// cannot be read, lets the search go on (`None`); any other failure ends
/// the search.
pub fn helper_choice(filter: &Filter, built: Result<WolframApp, Error>) -> (r: Option<Result<WolframApp, Error>>)
    ensures
        built is Ok && allows(*filter, built->Ok_0.app_type) ==> r == Some(built),
        built is Ok && !allows(*filter, built->Ok_0.app_type) ==> r is None,
        built is Err && built->Err_0.kind is UnsupportedPlatform ==> r is None,
        built is Err && !(built->Err_0.kind is UnsupportedPlatform) ==> r == Some(built),
{
    match built {
        Ok(app) => {
            if filter.check_app(&app).is_ok() {
                Some(Ok(app))
            } else {
                None
            }
        },
        Err(err) => match err.kind {
            ErrorKind::UnsupportedPlatform { .. } => None,
            _ => Some(Err(err)),
        },
    }
}

/// What [`enumeration_choice`] promises of `r` for the applications `found`.
pub open spec fn enumeration_outcome(filter: Filter, found: Seq<WolframApp>, r: Result<WolframApp, Error>) -> bool {
    &&& r is Ok ==> allows(filter, r->Ok_0.app_type) && found.contains(r->Ok_0)
    &&& r is Ok ==> forall|a: WolframApp| #[trigger] found.contains(a) && allows(filter, a.app_type)
        ==> !better(a, r->Ok_0)
    &&& r is Err <==> forall|i: int| 0 <= i < found.len() ==> !allows(filter, #[trigger] found[i].app_type)
    &&& r is Err ==> r->Err_0.kind is Undiscoverable
        && r->Err_0.kind->Undiscoverable_environment_variable == Some(WOLFRAM_APP_DIRECTORY)
        && r->Err_0.kind->Undiscoverable_resource@ == "default Wolfram Language installation"@
}

/// The last step of the search: the best application that the platform
/// adapters found and that passes the filter, or an error naming
/// [`WOLFRAM_APP_DIRECTORY`] as the remedy.
pub fn enumeration_choice(filter: &Filter, found: Vec<WolframApp>) -> (r: Result<WolframApp, Error>)
    ensures
        enumeration_outcome(*filter, found@, r),
        r is Ok ==> allows(*filter, r->Ok_0.app_type) && found@.contains(r->Ok_0),
        r is Ok ==> forall|a: WolframApp| #[trigger] found@.contains(a) && allows(*filter, a.app_type)
            ==> !better(a, r->Ok_0),
        r is Err <==> forall|i: int| 0 <= i < found@.len() ==> !allows(*filter, #[trigger] found@[i].app_type),
        r is Err ==> r->Err_0.kind is Undiscoverable
            && r->Err_0.kind->Undiscoverable_environment_variable == Some(WOLFRAM_APP_DIRECTORY),
{
    let ghost all = found@;
    let mut apps = discover_with_filter(found, filter);
    let ghost ranked = apps@;
    if apps.len() > 0 {
        let first = apps.remove(0);
        proof {
            assert(ranked.to_multiset().count(first) > 0);
            assert(all.to_multiset().count(first) > 0);
            assert forall|a: WolframApp| #[trigger] all.contains(a) && allows(*filter, a.app_type) implies !better(
                a,
                first,
            ) by {
                assert(all.to_multiset().count(a) > 0);
                assert(ranked.to_multiset().count(a) > 0);
                assert(ranked.contains(a));
                let j = choose|j: int| 0 <= j < ranked.len() && ranked[j] == a;
                if j > 0 {
                    assert(!better(ranked[j], ranked[0]));
                } else {
                    crate::app::lemma_better_order(a, a, a);
                }
            }
        }
        return Ok(first);
    }
    proof {
        assert forall|i: int| 0 <= i < all.len() implies !allows(*filter, #[trigger] all[i].app_type) by {
            assert(all.to_multiset().count(all[i]) > 0);
            if allows(*filter, all[i].app_type) {
                assert(ranked.to_multiset().count(all[i]) > 0);
            }
        }
    }
    Err(
        Error::undiscoverable(
            String::from_str("default Wolfram Language installation"),
            Some(WOLFRAM_APP_DIRECTORY),
        ),
    )
}

/// What [`explicit_choice`] promises of `r`, for the application `built`
/// that `variable` chose.
pub open spec fn explicit_outcome(filter: Filter, variable: Seq<char>, built: Result<WolframApp, Error>, r: Result<WolframApp, Error>) -> bool {
    &&& built is Err ==> r == built
    &&& built is Ok && allows(filter, built->Ok_0.app_type) ==> r == built
    &&& built is Ok && !allows(filter, built->Ok_0.app_type) ==> r is Err && is_full_mismatch_error(
        r->Err_0,
        variable,
        built->Ok_0,
        filter,
    )
}

impl WolframApp {
    /// Finds the default Wolfram installation that passes `filter`.
    ///
    /// The search goes, in order: the deprecated installation-directory variable
    /// and then the application-directory variable of `env` (an explicit choice:
    /// an application that cannot be read or does not pass the filter is an
    /// error); then the installation directory that `query_helper` reports
    /// (skipped where the helper is absent, the application does not pass the
    /// filter, or cannot be read on this platform); then the best application
    /// that `enumerate` finds.
    ///
    /// `from_installation_directory` and `from_app_directory` read an
    /// application from disk; `query_helper` asks the helper tool for its
    /// installation directory (`Ok(None)` where the tool is absent); `enumerate`
    /// lists the applications that the platform adapters find.
    pub fn try_default_with_filter<I, A, H, E>(
        filter: &Filter,
        env: &Environment,
        from_installation_directory: I,
        from_app_directory: A,
        query_helper: H,
        enumerate: E,
    ) -> (r: Result<WolframApp, Error>) where
        I: Fn(String) -> Result<WolframApp, Error>,
        A: Fn(String) -> Result<WolframApp, Error>,
        H: Fn() -> Result<Option<String>, Error>,
        E: Fn() -> Vec<WolframApp>,

        requires
            forall|d: String| from_installation_directory.requires((d,)),
            forall|d: String| from_app_directory.requires((d,)),
            query_helper.requires(()),
            enumerate.requires(()),
        ensures
            env.rust_wolfram_location is Some ==> exists|d: String, b: Result<WolframApp, Error>|
                d@ == env.rust_wolfram_location->Some_0@ && #[trigger] from_installation_directory.ensures(
                    (d,),
                    b,
                ) && explicit_outcome(*filter, RUST_WOLFRAM_LOCATION@, b, r),
            env.rust_wolfram_location is None && env.wolfram_app_directory is Some ==> exists|
                d: String,
                b: Result<WolframApp, Error>,
            |
                d@ == env.wolfram_app_directory->Some_0@ && #[trigger] from_app_directory.ensures((d,), b)
                    && explicit_outcome(*filter, WOLFRAM_APP_DIRECTORY@, b, r),
            env.rust_wolfram_location is None && env.wolfram_app_directory is None && r is Ok ==> allows(
                *filter,
                r->Ok_0.app_type,
            ),
            env.rust_wolfram_location is None && env.wolfram_app_directory is None ==> exists|
                h: Result<Option<String>, Error>,
            |
                #[trigger] query_helper.ensures((), h) && (h is Err ==> r == Err::<WolframApp, Error>(
                    h->Err_0,
                )) && (h == Ok::<Option<String>, Error>(None) ==> exists|found: Vec<WolframApp>|
                    #[trigger] enumerate.ensures((), found) && enumeration_outcome(*filter, found@, r))
                    && (h is Ok && h->Ok_0 is Some ==> exists|b: Result<WolframApp, Error>|
                    #[trigger] from_installation_directory.ensures((h->Ok_0->Some_0,), b) && ((b is Ok
                        && allows(*filter, b->Ok_0.app_type)) || (b is Err
                        && !(b->Err_0.kind is UnsupportedPlatform)) ==> r == b) && (!((b is Ok && allows(
                        *filter,
                        b->Ok_0.app_type,
                    )) || (b is Err && !(b->Err_0.kind is UnsupportedPlatform))) ==> exists|
                        found: Vec<WolframApp>,
                    | #[trigger] enumerate.ensures((), found) && enumeration_outcome(*filter, found@, r))),
    {
        match first_default_step(env) {
            DefaultStep::ExplicitInstallationDirectory { variable, dir } => {
                let ghost d = dir;
                let built = from_installation_directory(dir);
                let r = explicit_choice(filter, variable, built);
                assert(from_installation_directory.ensures((d,), built));
                return r;
            },
            DefaultStep::ExplicitAppDirectory { variable, dir } => {
                let ghost d = dir;
                let built = from_app_directory(dir);
                let r = explicit_choice(filter, variable, built);
                assert(from_app_directory.ensures((d,), built));
                return r;
            },
            DefaultStep::QueryHelper => {},
        }
        let answer = query_helper();
        assert(query_helper.ensures((), answer));
        match answer {
            Err(err) => {
                return Err(err);
            },
            Ok(Some(dir)) => {
                let ghost d = dir;
                let built = from_installation_directory(dir);
                assert(from_installation_directory.ensures((d,), built));
                match helper_choice(filter, built) {
                    Some(Ok(app)) => {
                        return Ok(app);
                    },
                    Some(Err(err)) => {
                        return Err(err);
                    },
                    None => {
                        let found = enumerate();
                        assert(enumerate.ensures((), found));
                        return enumeration_choice(filter, found);
                    },
                }
            },
            Ok(None) => {},
        }
        let found = enumerate();
        assert(enumerate.ensures((), found));
        enumeration_choice(filter, found)
    }

    /// [`try_default_with_filter`] with the filter that accepts every product
    /// type.
    pub fn try_default<I, A, H, E>(
        env: &Environment,
        from_installation_directory: I,
        from_app_directory: A,
        query_helper: H,
        enumerate: E,
    ) -> (r: Result<WolframApp, Error>) where
        I: Fn(String) -> Result<WolframApp, Error>,
        A: Fn(String) -> Result<WolframApp, Error>,
        H: Fn() -> Result<Option<String>, Error>,
        E: Fn() -> Vec<WolframApp>,

        requires
            forall|d: String| from_installation_directory.requires((d,)),
            forall|d: String| from_app_directory.requires((d,)),
            query_helper.requires(()),
            enumerate.requires(()),
        ensures
            env.rust_wolfram_location is Some ==> exists|d: String, b: Result<WolframApp, Error>|
                d@ == env.rust_wolfram_location->Some_0@ && #[trigger] from_installation_directory.ensures(
                    (d,),
                    b,
                ) && explicit_outcome((Filter { app_types: None }), RUST_WOLFRAM_LOCATION@, b, r),
            env.rust_wolfram_location is None && env.wolfram_app_directory is Some ==> exists|
                d: String,
                b: Result<WolframApp, Error>,
            |
                d@ == env.wolfram_app_directory->Some_0@ && #[trigger] from_app_directory.ensures((d,), b)
                    && explicit_outcome((Filter { app_types: None }), WOLFRAM_APP_DIRECTORY@, b, r),
            env.rust_wolfram_location is None && env.wolfram_app_directory is None && r is Ok ==> allows(
                (Filter { app_types: None }),
                r->Ok_0.app_type,
            ),
            env.rust_wolfram_location is None && env.wolfram_app_directory is None ==> exists|
                h: Result<Option<String>, Error>,
            |
                #[trigger] query_helper.ensures((), h) && (h is Err ==> r == Err::<WolframApp, Error>(
                    h->Err_0,
                )) && (h == Ok::<Option<String>, Error>(None) ==> exists|found: Vec<WolframApp>|
                    #[trigger] enumerate.ensures((), found) && enumeration_outcome((Filter { app_types: None }), found@, r))
                    && (h is Ok && h->Ok_0 is Some ==> exists|b: Result<WolframApp, Error>|
                    #[trigger] from_installation_directory.ensures((h->Ok_0->Some_0,), b) && ((b is Ok
                        && allows((Filter { app_types: None }), b->Ok_0.app_type)) || (b is Err
                        && !(b->Err_0.kind is UnsupportedPlatform)) ==> r == b) && (!((b is Ok && allows(
                        (Filter { app_types: None }),
                        b->Ok_0.app_type,
                    )) || (b is Err && !(b->Err_0.kind is UnsupportedPlatform))) ==> exists|
                        found: Vec<WolframApp>,
                    | #[trigger] enumerate.ensures((), found) && enumeration_outcome((Filter { app_types: None }), found@, r))),
    {
        let filter = Filter::allow_all();
        WolframApp::try_default_with_filter(&filter, env, from_installation_directory, from_app_directory, query_helper, enumerate)
    }
}

} // verus!
