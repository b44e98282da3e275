use vstd::prelude::*;

verus! {

/// The library's model of one raw terminal input event: a key press
/// carrying its character, or anything else.  The process boundary turns
/// the terminal's own event type into this one, so the simulation never
/// sees terminal types.
#[derive(Clone, Copy, PartialEq, Eq, Debug)]
pub enum RawEvent {
    Key(char),
    Other,
}

/// The closed set of simulation commands an input event can become.
#[derive(Clone, Copy, PartialEq, Eq, Debug)]
pub enum InputCommand {
    Quit,
    Unrecognized,
}

/// What a raw event means to the simulation: pressing `q` quits, anything
/// else is ignored.
pub open spec fn spec_translate(ev: RawEvent) -> InputCommand {
    if ev == RawEvent::Key('q') {
        InputCommand::Quit
    } else {
        InputCommand::Unrecognized
    }
}

/// Translates one raw input event into a simulation command.  Translation
/// never advances simulation time; the command is consumed by the loop
/// controller between ticks.
pub fn translate_event(ev: &RawEvent) -> (cmd: InputCommand)
    ensures
        cmd == spec_translate(*ev),
        cmd == InputCommand::Quit <==> *ev == RawEvent::Key('q'),
{
    match ev {
        RawEvent::Key(c) => {
            if *c == 'q' {
                InputCommand::Quit
            } else {
                InputCommand::Unrecognized
            }
        },
        RawEvent::Other => InputCommand::Unrecognized,
    }
}

} // verus!
