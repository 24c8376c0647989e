//! What each demo does with a window event: the decisions of the event
//! handlers, as the ordered steps that the caller then carries out.
use vstd::prelude::*;

verus! {

/// The window events the demos tell apart.
#[derive(Clone, Copy, Debug, PartialEq, Eq, Structural)]
pub enum WindowEventKind {
    CloseRequested,
    RedrawRequested,
    Other,
}

/// One step of handling a window event.
#[derive(Clone, Copy, Debug, PartialEq, Eq, Structural)]
pub enum FrameStep {
    /// Leave the event loop.
    Exit,
    /// Stop the demo: leave the event loop, blank the frame rate display and
    /// take the canvas off the page.
    StopApp,
    /// Clear the canvas, draw every rectangle and present the frame.
    RenderFrame,
    /// Move every rectangle one step, bouncing off the canvas edges.
    AdvanceRects,
    /// Ask the window for the next redraw.
    RequestRedraw,
    /// Count the frame and, once the measuring interval has run out, report
    /// the frame rate.
    MeasureFps,
    /// Log that the render state is in use elsewhere.
    LogStateBorrowed,
    /// Log that rendering is not set up yet.
    LogNotInitialized,
}

/// The steps of one animation frame, common to both demos.
pub open spec fn frame_steps() -> Seq<FrameStep> {
    seq![FrameStep::RenderFrame, FrameStep::AdvanceRects, FrameStep::RequestRedraw, FrameStep::MeasureFps]
}

/// The tiny-skia demo's handling of `event`, `stopped` telling whether the
/// stop button has been pressed: a close request leaves the loop; a redraw
/// first stops the demo when asked to, then draws and animates the frame;
/// other events are ignored.
pub open spec fn tiny_skia_steps(event: WindowEventKind, stopped: bool) -> Seq<FrameStep> {
    match event {
        WindowEventKind::CloseRequested => seq![FrameStep::Exit],
        WindowEventKind::RedrawRequested => if stopped {
            seq![FrameStep::StopApp] + frame_steps()
        } else {
            frame_steps()
        },
        WindowEventKind::Other => Seq::empty(),
    }
}

/// The vello demo's handling of `event`: while the render state is borrowed
/// the event is only logged; until the surface of this window is ready it is
/// logged and dropped; then a close request leaves the loop, a redraw draws
/// and animates the frame, and other events are ignored.
pub open spec fn vello_steps(event: WindowEventKind, state_borrowed: bool, surface_ready: bool) -> Seq<FrameStep> {
    if state_borrowed {
        seq![FrameStep::LogStateBorrowed]
    } else if !surface_ready {
        seq![FrameStep::LogNotInitialized]
    } else {
        match event {
            WindowEventKind::CloseRequested => seq![FrameStep::Exit],
            WindowEventKind::RedrawRequested => frame_steps(),
            WindowEventKind::Other => Seq::empty(),
        }
    }
}

fn push_frame_steps(steps: &mut Vec<FrameStep>)
    ensures
        final(steps)@ == old(steps)@ + frame_steps(),
{
    steps.push(FrameStep::RenderFrame);
    steps.push(FrameStep::AdvanceRects);
    steps.push(FrameStep::RequestRedraw);
    steps.push(FrameStep::MeasureFps);
    assert(steps@ =~= old(steps)@ + frame_steps());
}

/// The steps of the tiny-skia demo for `event`.
pub fn tiny_skia_plan(event: WindowEventKind, stopped: bool) -> (steps: Vec<FrameStep>)
    ensures
        steps@ == tiny_skia_steps(event, stopped),
{
    let mut steps: Vec<FrameStep> = Vec::new();
    match event {
        WindowEventKind::CloseRequested => {
            steps.push(FrameStep::Exit);
            assert(steps@ =~= seq![FrameStep::Exit]);
        },
        WindowEventKind::RedrawRequested => {
            if stopped {
                steps.push(FrameStep::StopApp);
                assert(steps@ =~= seq![FrameStep::StopApp]);
            } else {
                assert(steps@ =~= Seq::<FrameStep>::empty());
            }
            push_frame_steps(&mut steps);
            assert(steps@ =~= tiny_skia_steps(event, stopped));
        },
        WindowEventKind::Other => {
            assert(steps@ =~= Seq::<FrameStep>::empty());
        },
    }
    steps
}

/// The steps of the vello demo for `event`; `state_borrowed` tells whether
/// the render state could not be borrowed, `surface_ready` whether it holds
/// an active surface for the window the event is for.
pub fn vello_plan(event: WindowEventKind, state_borrowed: bool, surface_ready: bool) -> (steps: Vec<FrameStep>)
    ensures
        steps@ == vello_steps(event, state_borrowed, surface_ready),
{
    let mut steps: Vec<FrameStep> = Vec::new();
    if state_borrowed {
        steps.push(FrameStep::LogStateBorrowed);
        assert(steps@ =~= seq![FrameStep::LogStateBorrowed]);
    } else if !surface_ready {
        steps.push(FrameStep::LogNotInitialized);
        assert(steps@ =~= seq![FrameStep::LogNotInitialized]);
    } else {
        match event {
            WindowEventKind::CloseRequested => {
                steps.push(FrameStep::Exit);
                assert(steps@ =~= seq![FrameStep::Exit]);
            },
            WindowEventKind::RedrawRequested => {
                assert(steps@ =~= Seq::<FrameStep>::empty());
                push_frame_steps(&mut steps);
                assert(steps@ =~= frame_steps());
            },
            WindowEventKind::Other => {
                assert(steps@ =~= Seq::<FrameStep>::empty());
            },
        }
    }
    steps
}

/// A close request ends the loop and does nothing else: in the tiny-skia
/// demo whether or not stop was pressed, in the vello demo once its surface
/// is ready and the state is free.
pub proof fn lemma_close_request_exits(stopped: bool)
    ensures
        tiny_skia_steps(WindowEventKind::CloseRequested, stopped) == seq![FrameStep::Exit],
        vello_steps(WindowEventKind::CloseRequested, false, true) == seq![FrameStep::Exit],
{
}

/// Every redraw that draws a frame also asks for the next one and ends by
/// measuring the frame rate, so the animation keeps going; in the tiny-skia
/// demo a pressed stop button is acted on before anything is drawn.
pub proof fn lemma_redraw_keeps_animating(stopped: bool, state_borrowed: bool, surface_ready: bool)
    ensures
        tiny_skia_steps(WindowEventKind::RedrawRequested, stopped).contains(FrameStep::RequestRedraw),
        tiny_skia_steps(WindowEventKind::RedrawRequested, stopped).last() == FrameStep::MeasureFps,
        stopped ==> tiny_skia_steps(WindowEventKind::RedrawRequested, stopped)[0] == FrameStep::StopApp,
        vello_steps(WindowEventKind::RedrawRequested, state_borrowed, surface_ready).contains(
            FrameStep::RenderFrame,
        ) ==> vello_steps(WindowEventKind::RedrawRequested, state_borrowed, surface_ready).contains(
            FrameStep::RequestRedraw,
        ),
{
    let steps = tiny_skia_steps(WindowEventKind::RedrawRequested, stopped);
    if stopped {
        assert(steps[3] == FrameStep::RequestRedraw);
    } else {
        assert(steps[2] == FrameStep::RequestRedraw);
    }
    let v = vello_steps(WindowEventKind::RedrawRequested, state_borrowed, surface_ready);
    if !state_borrowed && surface_ready {
        assert(v[2] == FrameStep::RequestRedraw);
    }
}

/// In the vello demo nothing but a log line comes of an event while the
/// render state is borrowed or not ready: no exit, no drawing.
pub proof fn lemma_vello_waits_for_surface(event: WindowEventKind, state_borrowed: bool, surface_ready: bool)
    requires
        state_borrowed || !surface_ready,
    ensures
        vello_steps(event, state_borrowed, surface_ready).len() == 1,
        !vello_steps(event, state_borrowed, surface_ready).contains(FrameStep::Exit),
        !vello_steps(event, state_borrowed, surface_ready).contains(FrameStep::RenderFrame),
{
    let v = vello_steps(event, state_borrowed, surface_ready);
    assert(v.len() == 1);
    assert(v[0] != FrameStep::Exit && v[0] != FrameStep::RenderFrame);
}

} // verus!
