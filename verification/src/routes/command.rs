use vstd::prelude::*;

use crate::app_state::{unchanged, AppRequest};
use crate::routes::commands;

verus! {

/// A command sent to the command endpoint, with its arguments.
pub enum Input {
    Login(commands::session_login::Input),
    Logout(commands::session_logout::Input),
    SessionCreate(commands::session_create::Input),
    SessionGet(commands::session_get::Input),
    SessionList(commands::session_list::Input),
    SessionPing(commands::session_ping::Input),
    UserGetFull(commands::user_get_full::Input),
    UserUpdate(commands::user_update::Input),
    UserUpdatePassword(commands::user_update_password::Input),
}

/// The answer to a command.
pub enum Output {
    Login(commands::session_login::Output),
    Logout(commands::session_logout::Output),
    SessionCreate(commands::session_create::Output),
    SessionGet(commands::session_get::Output),
    SessionList(commands::session_list::Output),
    SessionPing(commands::session_ping::Output),
    UserGetFull(commands::user_get_full::Output),
    UserUpdate(commands::user_update::Output),
    UserUpdatePassword(commands::user_update_password::Output),
}

/// Runs a command: each command goes to its own handler, and the answer
/// and what is written are those of that handler's contract.
pub fn run(state: &mut AppRequest, input: Input) -> (r: Output)
    ensures
        match (input, r) {
            (Input::Login(args), Output::Login(out)) => commands::session_login::effect(
                *old(state),
                *final(state),
                args,
                out,
            ),
            (Input::Logout(args), Output::Logout(out)) => commands::session_logout::effect(
                *old(state),
                *final(state),
                args,
                out,
            ),
            (Input::SessionCreate(_), Output::SessionCreate(out)) => commands::session_create::effect(
                *old(state),
                *final(state),
                out,
            ),
            (Input::SessionGet(args), Output::SessionGet(out)) => out
                == commands::session_get::outcome(old(state).store_view(), args) && unchanged(
                *old(state),
                *final(state),
            ),
            (Input::SessionList(args), Output::SessionList(out)) => commands::session_list::answered(
                old(state).store_view(),
                args,
                out,
            ) && unchanged(*old(state), *final(state)),
            (Input::SessionPing(args), Output::SessionPing(out)) => commands::session_ping::effect(
                *old(state),
                *final(state),
                args,
                out,
            ),
            (Input::UserGetFull(args), Output::UserGetFull(out)) => commands::user_get_full::answered(
                old(state).store_view(),
                args,
                out,
            ) && unchanged(*old(state), *final(state)),
            (Input::UserUpdate(args), Output::UserUpdate(out)) => commands::user_update::effect(
                *old(state),
                *final(state),
                args,
                out,
            ),
            (Input::UserUpdatePassword(args), Output::UserUpdatePassword(out)) => commands::user_update_password::effect(
                *old(state),
                *final(state),
                args,
                out,
            ),
            _ => false,
        },
{
    match input {
        Input::Login(args) => Output::Login(commands::session_login::run(state, args)),
        Input::Logout(args) => Output::Logout(commands::session_logout::run(state, args)),
        Input::SessionCreate(args) => Output::SessionCreate(
            commands::session_create::run(state, args),
        ),
        Input::SessionList(args) => Output::SessionList(commands::session_list::run(state, args)),
        Input::SessionGet(args) => Output::SessionGet(commands::session_get::run(state, args)),
        Input::UserGetFull(args) => Output::UserGetFull(
            commands::user_get_full::run(state, args),
        ),
        Input::SessionPing(args) => Output::SessionPing(commands::session_ping::run(state, args)),
        Input::UserUpdate(args) => Output::UserUpdate(commands::user_update::run(state, args)),
        Input::UserUpdatePassword(args) => Output::UserUpdatePassword(
            commands::user_update_password::run(state, args),
        ),
    }
}

} // verus!
