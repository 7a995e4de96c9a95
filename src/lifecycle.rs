//! The order in which a window acquires its platform resources, when its
//! construction gives up, and the order in which it releases them.
//!
//! Construction runs a fixed plan of platform calls. Every call reports
//! failure by returning zero, and a failure ends construction on the spot.
//! The window, its drawing surface and, with graphics, the rendering
//! context and its activation are owed back when the window goes away;
//! they are given back in the reverse order of acquisition, each once.

use vstd::prelude::*;

verus! {

/// One platform call made while a window is built.
#[derive(Clone, Copy, Debug, PartialEq, Eq, Structural)]
pub enum Step {
    /// Find the handle of the running module.
    LoadModule,
    /// Register the window class whose procedure answers the messages.
    RegisterClass,
    /// Create the visible window.
    CreateWindow,
    /// Take the window's drawing surface.
    GetSurface,
    /// Pick a pixel format that matches the requested one.
    ChooseFormat,
    /// Give the surface that pixel format.
    SetFormat,
    /// Create a rendering context on the surface.
    CreateContext,
    /// Make the rendering context current.
    Activate,
}

/// Where construction stands after a call returned.
#[derive(Clone, Copy, Debug, PartialEq, Eq, Structural)]
pub enum Progress {
    /// Make this call next.
    Run(Step),
    /// The window is built.
    Ready,
    /// This call failed: construction gives up.
    Abort(Step),
}

/// One call made when a window goes away.
#[derive(Clone, Copy, Debug, PartialEq, Eq, Structural)]
pub enum Release {
    /// Make no rendering context current.
    Deactivate,
    /// Delete the rendering context.
    DeleteContext,
    /// Give the drawing surface back.
    ReleaseSurface,
    /// Destroy the window.
    DestroyWindow,
}

/// The calls that build a window, in order; those after `GetSurface` only
/// where graphics support is requested.
pub open spec fn plan(graphics: bool) -> Seq<Step> {
    let base = seq![Step::LoadModule, Step::RegisterClass, Step::CreateWindow, Step::GetSurface];
    if graphics {
        base + seq![Step::ChooseFormat, Step::SetFormat, Step::CreateContext, Step::Activate]
    } else {
        base
    }
}

/// The place of a call in the plan with graphics.
pub open spec fn position(step: Step) -> int {
    match step {
        Step::LoadModule => 0,
        Step::RegisterClass => 1,
        Step::CreateWindow => 2,
        Step::GetSurface => 3,
        Step::ChooseFormat => 4,
        Step::SetFormat => 5,
        Step::CreateContext => 6,
        Step::Activate => 7,
    }
}

/// What comes after a call that succeeded.
pub open spec fn next_in_plan(step: Step, graphics: bool) -> Progress {
    if position(step) + 1 < plan(graphics).len() {
        Progress::Run(plan(graphics)[position(step) + 1])
    } else {
        Progress::Ready
    }
}

/// What a call leaves owed at teardown, if anything.
pub open spec fn release_of(step: Step) -> Option<Release> {
    match step {
        Step::CreateWindow => Some(Release::DestroyWindow),
        Step::GetSurface => Some(Release::ReleaseSurface),
        Step::CreateContext => Some(Release::DeleteContext),
        Step::Activate => Some(Release::Deactivate),
        _ => None,
    }
}

/// What the calls `steps` leave owed, in the order they were made.
pub open spec fn owed(steps: Seq<Step>) -> Seq<Release>
    decreases steps.len(),
{
    if steps.len() == 0 {
        Seq::empty()
    } else {
        let before = owed(steps.drop_last());
        match release_of(steps.last()) {
            Some(r) => before.push(r),
            None => before,
        }
    }
}

/// The first call of construction.
pub fn first_step() -> (r: Step)
    ensures
        r == plan(false)[0],
        r == plan(true)[0],
{
    Step::LoadModule
}

/// Decides what follows call `step`, which returned `result`: give up if
/// the call returned zero, else go on with the plan.
pub fn advance(step: Step, graphics: bool, result: isize) -> (r: Progress)
    requires
        plan(graphics).contains(step),
    ensures
        result == 0 ==> r == Progress::Abort(step),
        result != 0 ==> r == next_in_plan(step, graphics),
{
    if result == 0 {
        return Progress::Abort(step);
    }
    match step {
        Step::LoadModule => Progress::Run(Step::RegisterClass),
        Step::RegisterClass => Progress::Run(Step::CreateWindow),
        Step::CreateWindow => Progress::Run(Step::GetSurface),
        Step::GetSurface => {
            if graphics {
                Progress::Run(Step::ChooseFormat)
            } else {
                Progress::Ready
            }
        },
        Step::ChooseFormat => Progress::Run(Step::SetFormat),
        Step::SetFormat => Progress::Run(Step::CreateContext),
        Step::CreateContext => Progress::Run(Step::Activate),
        Step::Activate => Progress::Ready,
    }
}

/// What a window built with or without graphics support still owes when
/// it goes away, newest first: everything construction left owed, but the
/// window itself where it is no longer alive (closing it destroyed it).
pub open spec fn still_owed(graphics: bool, window_alive: bool) -> Seq<Release> {
    let all = owed(plan(graphics)).reverse();
    if window_alive {
        all
    } else {
        all.drop_last()
    }
}

/// The calls that tear down a window built with or without graphics
/// support; `window_alive` tells whether the window was not yet destroyed.
pub fn teardown(graphics: bool, window_alive: bool) -> (r: Vec<Release>)
    ensures
        r@ == still_owed(graphics, window_alive),
{
    proof {
        lemma_owed_plan(graphics);
    }
    let mut r: Vec<Release> = Vec::new();
    if graphics {
        r.push(Release::Deactivate);
        r.push(Release::DeleteContext);
    }
    r.push(Release::ReleaseSurface);
    if window_alive {
        r.push(Release::DestroyWindow);
    }
    proof {
        if graphics {
            assert(r@ =~= still_owed(graphics, window_alive));
        } else {
            assert(r@ =~= still_owed(graphics, window_alive));
        }
    }
    r
}

proof fn lemma_owed_plan(graphics: bool)
    ensures
        graphics ==> owed(plan(graphics)) == seq![
            Release::DestroyWindow,
            Release::ReleaseSurface,
            Release::DeleteContext,
            Release::Deactivate,
        ],
        !graphics ==> owed(plan(graphics)) == seq![
            Release::DestroyWindow,
            Release::ReleaseSurface,
        ],
{
    let p = plan(graphics);
    let e = Seq::<Release>::empty();
    let w = e.push(Release::DestroyWindow);
    let ws = w.push(Release::ReleaseSurface);
    assert(p.take(0).len() == 0);
    assert(owed(p.take(0)) == e);
    assert(p.take(1).drop_last() =~= p.take(0) && p.take(1).last() == Step::LoadModule);
    assert(owed(p.take(1)) == e);
    assert(p.take(2).drop_last() =~= p.take(1) && p.take(2).last() == Step::RegisterClass);
    assert(owed(p.take(2)) == e);
    assert(p.take(3).drop_last() =~= p.take(2) && p.take(3).last() == Step::CreateWindow);
    assert(owed(p.take(3)) == w);
    assert(p.take(4).drop_last() =~= p.take(3) && p.take(4).last() == Step::GetSurface);
    assert(owed(p.take(4)) == ws);
    if graphics {
        assert(p.take(5).drop_last() =~= p.take(4) && p.take(5).last() == Step::ChooseFormat);
        assert(p.take(6).drop_last() =~= p.take(5) && p.take(6).last() == Step::SetFormat);
        assert(p.take(7).drop_last() =~= p.take(6) && p.take(7).last() == Step::CreateContext);
        assert(p.take(8).drop_last() =~= p.take(7) && p.take(8).last() == Step::Activate);
        assert(owed(p.take(5)) == ws);
        assert(owed(p.take(6)) == ws);
        assert(owed(p.take(7)) == ws.push(Release::DeleteContext));
        assert(owed(p.take(8)) == ws.push(Release::DeleteContext).push(Release::Deactivate));
        assert(p.take(8) =~= p);
        assert(owed(p) =~= seq![
            Release::DestroyWindow,
            Release::ReleaseSurface,
            Release::DeleteContext,
            Release::Deactivate,
        ]);
    } else {
        assert(p.take(4) =~= p);
        assert(owed(p) =~= seq![Release::DestroyWindow, Release::ReleaseSurface]);
    }
}

/// A build whose calls all succeed makes every call of the plan once, in
/// the plan's order, and then the window is ready.
pub proof fn lemma_build_runs_plan_once(graphics: bool)
    ensures
        plan(graphics).no_duplicates(),
        forall|i: int|
            0 <= i < plan(graphics).len() ==> position(#[trigger] plan(graphics)[i]) == i,
        forall|i: int|
            0 <= i < plan(graphics).len() - 1 ==> next_in_plan(#[trigger] plan(graphics)[i], graphics)
                == Progress::Run(plan(graphics)[i + 1]),
        next_in_plan(plan(graphics).last(), graphics) == Progress::Ready,
{
    let p = plan(graphics);
    assert forall|i: int| 0 <= i < p.len() implies position(#[trigger] p[i]) == i by {
        if graphics {
            assert(p =~= seq![
                Step::LoadModule, Step::RegisterClass, Step::CreateWindow, Step::GetSurface,
                Step::ChooseFormat, Step::SetFormat, Step::CreateContext, Step::Activate,
            ]);
        } else {
            assert(p =~= seq![
                Step::LoadModule, Step::RegisterClass, Step::CreateWindow, Step::GetSurface,
            ]);
        }
    }
    assert(position(p[p.len() - 1]) == p.len() - 1);
}

/// Whatever construction acquired is given back at teardown, each thing
/// once and in the reverse order of acquisition; the window comes last, and
/// only it is left out where the window was already destroyed.
pub proof fn lemma_teardown_releases_each_once(graphics: bool, window_alive: bool)
    ensures
        still_owed(graphics, window_alive).no_duplicates(),
        forall|i: int|
            0 <= i < plan(graphics).len() && (#[trigger] release_of(plan(graphics)[i])) is Some
                && (window_alive || plan(graphics)[i] != Step::CreateWindow)
                ==> still_owed(graphics, window_alive).contains(release_of(plan(graphics)[i])->0),
        !still_owed(graphics, false).contains(Release::DestroyWindow),
        still_owed(graphics, true).last() == Release::DestroyWindow,
{
    lemma_owed_plan(graphics);
    let p = plan(graphics);
    let alive = still_owed(graphics, true);
    let dead = still_owed(graphics, false);
    if graphics {
        assert(alive =~= seq![
            Release::Deactivate,
            Release::DeleteContext,
            Release::ReleaseSurface,
            Release::DestroyWindow,
        ]);
        assert(dead =~= seq![Release::Deactivate, Release::DeleteContext, Release::ReleaseSurface]);
        assert(alive[0] == Release::Deactivate);
        assert(alive[1] == Release::DeleteContext);
        assert(alive[2] == Release::ReleaseSurface);
        assert(alive[3] == Release::DestroyWindow);
        assert(p =~= seq![
            Step::LoadModule, Step::RegisterClass, Step::CreateWindow, Step::GetSurface,
            Step::ChooseFormat, Step::SetFormat, Step::CreateContext, Step::Activate,
        ]);
    } else {
        assert(alive =~= seq![Release::ReleaseSurface, Release::DestroyWindow]);
        assert(dead =~= seq![Release::ReleaseSurface]);
        assert(alive[0] == Release::ReleaseSurface);
        assert(alive[1] == Release::DestroyWindow);
        assert(p =~= seq![
            Step::LoadModule, Step::RegisterClass, Step::CreateWindow, Step::GetSurface,
        ]);
    }
    assert(dead[0] == alive[0]);
}

} // verus!
