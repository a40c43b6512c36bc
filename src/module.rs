//! Messages and responses exchanged with modules.

use vstd::prelude::*;

verus! {

/// Message types that can be sent to parent modules
#[derive(Debug, Clone)]
pub enum ModuleMessage {
    Shutdown,
    Custom(String),
}

/// Response from child module operations
#[derive(Debug)]
pub struct ModuleResponse<T> {
    pub data: T,
}

/// What a parent module's loop observed.
#[derive(Debug, Clone)]
pub enum ModuleEvent {
    /// A receive on the control channel finished; `None` when it closed.
    Received(Option<ModuleMessage>),
    /// The maintenance period elapsed with no message.
    PeriodElapsed,
}

/// What a parent module's loop does next.
#[derive(Debug, Clone, Copy, PartialEq, Eq, Structural)]
pub enum ModuleAction {
    /// Shut the module's task queue down, then leave the loop.
    ShutdownQueue,
    /// Leave the loop.
    Stop,
    /// Run the periodic maintenance, then keep going.
    Maintain,
    /// Keep going.
    Continue,
}

/// The decision of a parent module's loop: a shutdown message shuts the
/// queue down and stops; a closed channel stops; a custom message is only
/// noted; an elapsed period runs maintenance.
pub fn module_step(event: &ModuleEvent) -> (r: ModuleAction)
    ensures
        r == match event {
            ModuleEvent::Received(Some(ModuleMessage::Shutdown)) => ModuleAction::ShutdownQueue,
            ModuleEvent::Received(Some(ModuleMessage::Custom(_))) => ModuleAction::Continue,
            ModuleEvent::Received(None) => ModuleAction::Stop,
            ModuleEvent::PeriodElapsed => ModuleAction::Maintain,
        },
{
    match event {
        ModuleEvent::Received(Some(ModuleMessage::Shutdown)) => ModuleAction::ShutdownQueue,
        ModuleEvent::Received(Some(ModuleMessage::Custom(_))) => ModuleAction::Continue,
        ModuleEvent::Received(None) => ModuleAction::Stop,
        ModuleEvent::PeriodElapsed => ModuleAction::Maintain,
    }
}

} // verus!
