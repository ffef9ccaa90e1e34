//! What the main window does with each message it receives, and the state it
//! keeps: the handles of the shared font and of its two controls.
use vstd::prelude::*;

use crate::loword;

verus! {

/// Message sent when the window is being created.
pub const WM_CREATE: u32 = 0x0001;

/// Message sent when the window is being destroyed.
pub const WM_DESTROY: u32 = 0x0002;

/// Message sent when the window must be redrawn.
pub const WM_PAINT: u32 = 0x000F;

/// Message sent when a control is activated.
pub const WM_COMMAND: u32 = 0x0111;

/// Identifier of the input field.
pub const ID_EDIT: u16 = 42;

/// Identifier of the button that shows the result.
pub const ID_BUTTON: u16 = 43;

/// What the window procedure does in answer to a message.
#[derive(Clone, Copy, Debug, PartialEq, Eq, Structural)]
pub enum Action {
    /// Create the font and the two controls.
    SetUpControls,
    /// Draw the two lines of instructions.
    Repaint,
    /// Read the input field and show the result dialog.
    ShowResult,
    /// Nothing to do; the message is handled.
    Ignore,
    /// Post the quit signal that ends the message loop.
    Quit,
    /// Hand the message, unchanged, to the platform's default handling.
    Forward,
}

/// The identifier of the control that a command message comes from: the low
/// 16 bits of its first parameter.
pub open spec fn command_id(wparam: usize) -> u16 {
    (wparam % 0x1_0000) as u16
}

pub open spec fn action_for(msg: u32, wparam: usize) -> Action {
    if msg == WM_CREATE {
        Action::SetUpControls
    } else if msg == WM_PAINT {
        Action::Repaint
    } else if msg == WM_COMMAND {
        if command_id(wparam) == ID_BUTTON {
            Action::ShowResult
        } else {
            Action::Ignore
        }
    } else if msg == WM_DESTROY {
        Action::Quit
    } else {
        Action::Forward
    }
}

/// Routes a message of kind `msg`, with first parameter `wparam`, to what the
/// window does with it. It reads and changes no state: the stored handles are
/// the same after any message.
pub fn dispatch(msg: u32, wparam: usize) -> (r: Action)
    ensures
        r == action_for(msg, wparam),
        msg == WM_DESTROY ==> r == Action::Quit,
        msg == WM_COMMAND ==> (r == Action::ShowResult <==> command_id(wparam) == ID_BUTTON),
        msg != WM_CREATE && msg != WM_PAINT && msg != WM_COMMAND && msg != WM_DESTROY ==> r
            == Action::Forward,
{
    if msg == WM_CREATE {
        Action::SetUpControls
    } else if msg == WM_PAINT {
        Action::Repaint
    } else if msg == WM_COMMAND {
        let low: u32 = #[verifier::truncate] (wparam as u32);
        assert(low as int % 0x1_0000 == wparam as int % 0x1_0000) by (bit_vector)
            requires
                low == #[verifier::truncate] (wparam as u32),
        ;
        if loword(low) == ID_BUTTON {
            Action::ShowResult
        } else {
            Action::Ignore
        }
    } else if msg == WM_DESTROY {
        Action::Quit
    } else {
        Action::Forward
    }
}

/// The step of the window's setup that comes next.
#[derive(Clone, Copy, Debug, PartialEq, Eq, Structural)]
pub enum SetupStage {
    /// Create the shared font.
    Font,
    /// Create the input field and give it the font.
    Edit,
    /// Give the input field the keyboard focus.
    FocusEdit,
    /// Create the button and give it the font.
    Button,
    /// Every step succeeded.
    Done,
    /// A step failed; the steps after it are left out.
    Stopped,
}

/// The handles that the window keeps for its lifetime, as raw values (zero
/// for a handle that was never made), and how far its setup has come.
#[derive(Clone, Copy, Debug, PartialEq, Eq, Structural)]
pub struct WindowState {
    pub font: usize,
    pub edit: usize,
    pub button: usize,
    pub stage: SetupStage,
}

impl WindowState {
    /// Whether a setup step is still to be made.
    pub open spec fn in_setup(&self) -> bool {
        self.stage == SetupStage::Font || self.stage == SetupStage::Edit || self.stage
            == SetupStage::FocusEdit || self.stage == SetupStage::Button
    }

    /// The state of a window before its setup: no handle, first step next.
    pub fn new() -> (r: WindowState)
        ensures
            r.font == 0,
            r.edit == 0,
            r.button == 0,
            r.stage == SetupStage::Font,
    {
        WindowState { font: 0, edit: 0, button: 0, stage: SetupStage::Font }
    }

    /// Whether a setup step is still to be made.
    pub fn setting_up(&self) -> (r: bool)
        ensures
            r == self.in_setup(),
    {
        match self.stage {
            SetupStage::Font | SetupStage::Edit | SetupStage::FocusEdit | SetupStage::Button => true,
            SetupStage::Done | SetupStage::Stopped => false,
        }
    }

    /// Records the outcome of the current setup step: `handle` is what the step
    /// made (if it makes one) and `ok` whether it succeeded. The font is kept
    /// whatever came back, a null one too; a control is kept only when made;
    /// a failed step stops the setup. A handle recorded before never changes.
    pub fn advance(&mut self, handle: usize, ok: bool)
        requires
            old(self).in_setup(),
        ensures
            old(self).stage == SetupStage::Font ==> *final(self) == (WindowState {
                font: handle,
                stage: SetupStage::Edit,
                ..*old(self)
            }),
            old(self).stage == SetupStage::Edit ==> *final(self) == (if ok {
                WindowState { edit: handle, stage: SetupStage::FocusEdit, ..*old(self) }
            } else {
                WindowState { stage: SetupStage::Stopped, ..*old(self) }
            }),
            old(self).stage == SetupStage::FocusEdit ==> *final(self) == (WindowState {
                stage: if ok {
                    SetupStage::Button
                } else {
                    SetupStage::Stopped
                },
                ..*old(self)
            }),
            old(self).stage == SetupStage::Button ==> *final(self) == (if ok {
                WindowState { button: handle, stage: SetupStage::Done, ..*old(self) }
            } else {
                WindowState { stage: SetupStage::Stopped, ..*old(self) }
            }),
    {
        match self.stage {
            SetupStage::Font => {
                self.font = handle;
                self.stage = SetupStage::Edit;
            },
            SetupStage::Edit => {
                if ok {
                    self.edit = handle;
                    self.stage = SetupStage::FocusEdit;
                } else {
                    self.stage = SetupStage::Stopped;
                }
            },
            SetupStage::FocusEdit => {
                self.stage = if ok {
                    SetupStage::Button
                } else {
                    SetupStage::Stopped
                };
            },
            _ => {
                if ok {
                    self.button = handle;
                    self.stage = SetupStage::Done;
                } else {
                    self.stage = SetupStage::Stopped;
                }
            },
        }
    }
}

} // verus!
