//! The permission levels of commands.

use vstd::prelude::*;
use crate::text::str_eq;

verus! {

/// The permission a command requires, from the weakest to the strongest.
#[derive(Debug, Clone, Copy, PartialEq, Eq, PartialOrd, Ord, Structural)]
pub enum Permission {
    /// Any member of the room.
    Anyone,
    /// A room moderator, of power level 50 or more; in a direct chat, anyone.
    RoomMod,
    /// One of the configured bot owners.
    BotOwner,
}

/// The rank of a permission level: `Anyone < RoomMod < BotOwner`, the order in
/// which the variants are declared.
pub open spec fn rank(p: Permission) -> int {
    match p {
        Permission::Anyone => 0,
        Permission::RoomMod => 1,
        Permission::BotOwner => 2,
    }
}

pub open spec fn display_name_spec(p: Permission) -> Seq<char> {
    match p {
        Permission::Anyone => "任何人"@,
        Permission::RoomMod => "房间管理员"@,
        Permission::BotOwner => "Bot 所有者"@,
    }
}

/// Whether `user` is one of `owners`.
pub open spec fn is_owner(user: Seq<char>, owners: Seq<Seq<char>>) -> bool {
    exists|i: int| 0 <= i < owners.len() && owners[i] == user
}

/// The lowest power level of a room moderator.
pub open spec fn moderator_level() -> int {
    50
}

/// Whether `user` holds the permission `p`, given whether the room is a direct
/// chat and the user's power level in the room.
pub open spec fn grants_spec(
    p: Permission,
    user: Seq<char>,
    owners: Seq<Seq<char>>,
    is_direct: bool,
    power_level: int,
) -> bool {
    match p {
        Permission::Anyone => true,
        Permission::RoomMod => is_direct || power_level >= moderator_level(),
        Permission::BotOwner => is_owner(user, owners),
    }
}

/// The views of a list of strings.
pub open spec fn string_views(v: Seq<String>) -> Seq<Seq<char>> {
    v.map_values(|s: String| s@)
}

impl Permission {
    /// The rank of this level, as `rank` gives it.
    pub fn level(&self) -> (r: u8)
        ensures
            r == rank(*self),
    {
        match self {
            Permission::Anyone => 0,
            Permission::RoomMod => 1,
            Permission::BotOwner => 2,
        }
    }

    /// Whether the room facts are needed to decide this permission.
    pub fn needs_room_facts(&self) -> (b: bool)
        ensures
            b == (*self == Permission::RoomMod),
    {
        match self {
            Permission::RoomMod => true,
            _ => false,
        }
    }

    /// Whether `user_id` holds this permission: anyone holds `Anyone`; in a
    /// direct chat, or with a power level of 50 or more in the room, one holds
    /// `RoomMod`; only a listed owner holds `BotOwner`.
    pub fn check(&self, user_id: &str, bot_owners: &[String], is_direct: bool, power_level: i64) -> (b: bool)
        ensures
            b == grants_spec(*self, user_id@, string_views(bot_owners@), is_direct, power_level as int),
            *self == Permission::Anyone ==> b,
            *self == Permission::RoomMod ==> (b <==> (is_direct || power_level >= 50)),
            *self == Permission::BotOwner ==> (b <==> exists|i: int|
                0 <= i < bot_owners@.len() && (#[trigger] bot_owners@[i])@ == user_id@),
    {
        match self {
            Permission::Anyone => true,
            Permission::RoomMod => is_direct || power_level >= 50,
            Permission::BotOwner => {
                let mut i: usize = 0;
                while i < bot_owners.len()
                    invariant
                        i <= bot_owners@.len(),
                        *self == Permission::BotOwner,
                        forall|j: int| 0 <= j < i ==> bot_owners@[j]@ != user_id@,
                    decreases bot_owners@.len() - i,
                {
                    if str_eq(bot_owners[i].as_str(), user_id) {
                        assert(bot_owners@[i as int]@ == user_id@);
                        assert(string_views(bot_owners@)[i as int] == user_id@);
                        assert(is_owner(user_id@, string_views(bot_owners@)));
                        return true;
                    }
                    i = i + 1;
                }
                assert(!is_owner(user_id@, string_views(bot_owners@)));
                false
            },
        }
    }

    /// The name of this level shown to users.
    pub fn display_name(&self) -> (r: &'static str)
        ensures
            r@ == display_name_spec(*self),
    {
        match self {
            Permission::Anyone => "任何人",
            Permission::RoomMod => "房间管理员",
            Permission::BotOwner => "Bot 所有者",
        }
    }
}

/// Every listed bot owner holds `BotOwner`, wherever it stands in the list and
/// whatever the room; a user the list does not hold does not; and adding a
/// user to the list makes that user an owner.
pub proof fn law_every_listed_owner_holds_bot_owner(
    owners: Seq<Seq<char>>,
    user: Seq<char>,
    is_direct: bool,
    power_level: int,
)
    ensures
        forall|i: int|
            0 <= i < owners.len() ==> grants_spec(Permission::BotOwner, #[trigger] owners[i], owners, is_direct, power_level),
        (forall|i: int| 0 <= i < owners.len() ==> owners[i] != user)
            ==> !grants_spec(Permission::BotOwner, user, owners, is_direct, power_level),
        grants_spec(Permission::BotOwner, user, owners.push(user), is_direct, power_level),
{
    assert forall|i: int| 0 <= i < owners.len() implies grants_spec(
        Permission::BotOwner,
        #[trigger] owners[i],
        owners,
        is_direct,
        power_level,
    ) by {
        assert(owners[i] == owners[i]);
    }
    assert(owners.push(user)[owners.len() as int] == user);
}

/// Anyone holds `Anyone`; `RoomMod` is held in a direct chat and, elsewhere,
/// from power level 50 up, by owners and others alike.
pub proof fn law_room_moderators(owners: Seq<Seq<char>>, user: Seq<char>, is_direct: bool, power_level: int)
    ensures
        grants_spec(Permission::Anyone, user, owners, is_direct, power_level),
        is_direct ==> grants_spec(Permission::RoomMod, user, owners, is_direct, power_level),
        !is_direct ==> (grants_spec(Permission::RoomMod, user, owners, is_direct, power_level) <==> power_level >= 50),
{
}

} // verus!
