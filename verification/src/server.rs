use vstd::prelude::*;

use crate::app_state::event::{DateEvent, Event};
use crate::app_state::AppState;
use crate::common::date::Date;
use crate::common::id::Id;

verus! {

/// The handle, name and password of the administrator account.
pub open spec fn admin_handle() -> Seq<char> {
    seq!['a', 'd', 'm', 'i', 'n']
}

pub open spec fn admin_name() -> Seq<char> {
    seq!['A', 'd', 'm', 'i', 'n', ' ', 'U', 's', 'e', 'r']
}

/// Creates the administrator account (handle and password `admin`) unless
/// a user was created with handle `admin`; it gets a new identifier and is
/// dated now.
pub fn make_admin_user_if_needed(state: &mut AppState)
    ensures
        old(state).store_view().handles.contains_key(admin_handle()) ==> final(state).store_view()
            == old(state).store_view() && final(state).log() == old(state).log(),
        !old(state).store_view().handles.contains_key(admin_handle()) ==> {
            &&& final(state).log().len() == old(state).log().len() + 1
            &&& final(state).log().drop_last() == old(state).log()
            &&& final(state).store_view() == old(state).store_view().apply(final(state).log().last())
            &&& final(state).log().last().kind matches Event::UserCreate {
                user_id,
                name,
                handle,
                password,
            } && !old(state).store_view().users.contains_key(user_id) && name@ == admin_name()
                && handle@ == admin_handle() && password@ == admin_handle()
        },
{
    proof {
        reveal_strlit("admin");
        reveal_strlit("Admin User");
        assert("admin"@ =~= admin_handle());
        assert("Admin User"@ =~= admin_name());
    }
    if state.get_store().users.get_by_handle("admin").is_some() {
        return ;
    }
    let taken = state.get_store().users.ids();
    let user_id = Id::new_unused(&taken);
    let event = DateEvent {
        date: Date::now(),
        kind: Event::UserCreate {
            user_id,
            name: String::from_str("Admin User"),
            handle: String::from_str("admin"),
            password: String::from_str("admin"),
        },
    };
    state.write(event);
    proof {
        assert(state.log().drop_last() =~= old(state).log());
    }
}

} // verus!
