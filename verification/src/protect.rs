//! The order in which sessions are protected. The helper builds the firewall
//! around the bypass networks that it knows of, so it has to know them first.
use vstd::prelude::*;
use vstd::string::*;

use crate::cidrs::enabled;
use crate::sessions::{protect_plan, reapply_due, ProtectPlan};
use crate::settings::Settings;
use crate::text::texts;

verus! {

/// A step of protecting sessions. `T` is the type of a text, `L` that of a
/// list.
#[derive(Debug, PartialEq, Eq)]
pub enum ProtectStep<T = String, L = Vec<String>> {
    /// Hand the bypass networks to the helper and install their routes.
    Bypass(L),
    /// Install the firewall for a session.
    Firewall { session_path: T, allow_lan: bool },
}

pub type StepModel = ProtectStep<Seq<char>, Seq<Seq<char>>>;

impl View for ProtectStep<String, Vec<String>> {
    type V = StepModel;

    open spec fn view(&self) -> StepModel {
        match *self {
            ProtectStep::Bypass(cidrs) => ProtectStep::Bypass(texts(cidrs@)),
            ProtectStep::Firewall { session_path, allow_lan } => ProtectStep::Firewall {
                session_path: session_path@,
                allow_lan,
            },
        }
    }
}

pub open spec fn steps_model(steps: Seq<ProtectStep>) -> Seq<StepModel> {
    Seq::new(steps.len(), |i: int| steps[i]@)
}

/// One firewall step for each session, in their order.
pub open spec fn firewall_steps(paths: Seq<Seq<char>>, allow_lan: bool) -> Seq<StepModel> {
    Seq::new(
        paths.len(),
        |i: int| (ProtectStep::Firewall { session_path: paths[i], allow_lan }),
    )
}

/// The steps to protect sessions: the bypass networks, if there are any, then
/// the firewall for each session, if the kill switch is on.
pub open spec fn protect_order(
    bypass: Seq<Seq<char>>,
    kill_switch: bool,
    allow_lan: bool,
    paths: Seq<Seq<char>>,
) -> Seq<StepModel> {
    let first = if bypass.len() > 0 {
        seq![ProtectStep::Bypass(bypass)]
    } else {
        Seq::empty()
    };
    let rest = if kill_switch {
        firewall_steps(paths, allow_lan)
    } else {
        Seq::empty()
    };
    first + rest
}

/// The steps to protect sessions, in the order in which they are taken.
pub fn protect_steps(plan: ProtectPlan, paths: Vec<String>) -> (r: Vec<ProtectStep>)
    ensures
        steps_model(r@) == protect_order(
            texts(plan.bypass@),
            plan.kill_switch,
            plan.allow_lan,
            texts(paths@),
        ),
{
    let allow_lan = plan.allow_lan;
    let ghost bypass = texts(plan.bypass@);
    let ghost order = protect_order(bypass, plan.kill_switch, allow_lan, texts(paths@));
    let mut steps: Vec<ProtectStep> = Vec::new();
    if plan.bypass.len() > 0 {
        steps.push(ProtectStep::Bypass(plan.bypass));
    }
    let ghost first = steps@;
    if plan.kill_switch {
        let mut i: usize = 0;
        while i < paths.len()
            invariant
                i <= paths.len(),
                steps@.len() == first.len() + i,
                steps@.take(first.len() as int) == first,
                forall|j: int|
                    0 <= j < i ==> (#[trigger] steps@[first.len() + j])@ == firewall_steps(
                        texts(paths@),
                        allow_lan,
                    )[j],
            decreases paths.len() - i,
        {
            steps.push(ProtectStep::Firewall { session_path: paths[i].clone(), allow_lan });
            assert(steps@.take(first.len() as int) =~= first);
            i = i + 1;
        }
    }
    proof {
        assert forall|k: int| 0 <= k < steps@.len() implies #[trigger] steps@[k]@ == order[k] by {
            if k < first.len() {
                assert(steps@.take(first.len() as int)[k] == first[k]);
            } else {
                assert(steps@[first.len() + (k - first.len())] == steps@[k]);
            }
        }
        assert(steps_model(steps@) =~= order);
    }
    steps
}

/// The steps that the settings ask for, to protect these sessions.
pub open spec fn wanted_steps(settings: Settings, paths: Seq<Seq<char>>) -> Seq<StepModel> {
    protect_order(
        enabled(settings.bypass_cidrs_view(), settings.bypass_cidrs_disabled_view()),
        settings.enable_kill_switch_spec(),
        settings.kill_switch_allow_lan_spec(),
        paths,
    )
}

/// The steps to protect a session that has just connected.
pub fn on_connected(settings: &Settings, session_path: &str) -> (r: Vec<ProtectStep>)
    ensures
        steps_model(r@) == wanted_steps(*settings, seq![session_path@]),
{
    let mut paths: Vec<String> = Vec::new();
    paths.push(session_path.to_owned());
    assert(texts(paths@) =~= seq![session_path@]);
    protect_steps(protect_plan(settings), paths)
}

/// The steps to protect the sessions that were connected before the program
/// started; none without such a session.
pub fn reapply_firewall_on_startup(settings: &Settings, connected_paths: Vec<String>) -> (r: Vec<
    ProtectStep,
>)
    ensures
        steps_model(r@) == (if connected_paths@.len() > 0 {
            wanted_steps(*settings, texts(connected_paths@))
        } else {
            Seq::empty()
        }),
{
    let plan = protect_plan(settings);
    if !reapply_due(connected_paths.len(), &plan) {
        let none: Vec<ProtectStep> = Vec::new();
        assert(texts(plan.bypass@).len() == plan.bypass@.len());
        assert(connected_paths@.len() > 0 ==> wanted_steps(*settings, texts(connected_paths@))
            =~= Seq::empty());
        assert(steps_model(none@) =~= Seq::empty());
        return none;
    }
    protect_steps(plan, connected_paths)
}

/// The bypass networks come before every firewall step, there is one such step
/// at most, and it is there exactly if there are networks. With the kill
/// switch on, each session has its firewall step, in their order; with it off,
/// none has.
pub proof fn law_bypass_comes_before_the_firewall(
    bypass: Seq<Seq<char>>,
    kill_switch: bool,
    allow_lan: bool,
    paths: Seq<Seq<char>>,
)
    ensures
        ({
            let steps = protect_order(bypass, kill_switch, allow_lan, paths);
            let networks: int = if bypass.len() > 0 {
                1
            } else {
                0
            };
            &&& forall|i: int|
                0 <= i < steps.len() ==> (#[trigger] steps[i] is Bypass <==> i == 0 && bypass.len()
                    > 0)
            &&& forall|i: int, j: int|
                0 <= i < steps.len() && 0 <= j < steps.len() && (#[trigger] steps[i]) is Bypass && (
                #[trigger] steps[j]) is Firewall ==> i < j
            &&& steps.len() == networks + (if kill_switch {
                paths.len() as int
            } else {
                0
            })
            &&& bypass.len() > 0 ==> steps[0] == ProtectStep::<Seq<char>, Seq<Seq<char>>>::Bypass(
                bypass,
            )
            &&& kill_switch ==> forall|k: int|
                0 <= k < paths.len() ==> #[trigger] steps[networks + k] == (ProtectStep::<
                    Seq<char>,
                    Seq<Seq<char>>,
                >::Firewall { session_path: paths[k], allow_lan })
        }),
{
}

/// What the settings ask for: the networks that are not switched off go to the
/// helper, if there are any, and with the kill switch on every session gets
/// its firewall, open to the local network just when the settings say so.
pub proof fn law_settings_decide_the_steps(settings: Settings, paths: Seq<Seq<char>>, k: int)
    requires
        0 <= k < paths.len(),
    ensures
        ({
            let steps = wanted_steps(settings, paths);
            let networks = enabled(
                settings.bypass_cidrs_view(),
                settings.bypass_cidrs_disabled_view(),
            );
            let at: int = if networks.len() > 0 {
                1
            } else {
                0
            };
            &&& networks.len() > 0 ==> steps[0] == ProtectStep::<
                Seq<char>,
                Seq<Seq<char>>,
            >::Bypass(networks)
            &&& settings.enable_kill_switch_spec() ==> steps.len() == at + paths.len() && steps[at
                + k] == (ProtectStep::<Seq<char>, Seq<Seq<char>>>::Firewall {
                session_path: paths[k],
                allow_lan: settings.kill_switch_allow_lan_spec(),
            })
            &&& !settings.enable_kill_switch_spec() ==> steps.len() == at
        }),
{
}

} // verus!
