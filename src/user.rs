//! Requests about the characters ("users") of an account, and the rule for
//! the names they may take.
use vstd::prelude::*;

verus! {

/// `c` is an ASCII letter or digit.
pub open spec fn is_ascii_alnum(c: char) -> bool {
    ('0' <= c && c <= '9') || ('A' <= c && c <= 'Z') || ('a' <= c && c <= 'z')
}

/// A user name is a non-empty run of ASCII letters and digits.
pub open spec fn valid_user_name(s: Seq<char>) -> bool {
    s.len() > 0 && forall|i: int| 0 <= i < s.len() ==> is_ascii_alnum(#[trigger] s[i])
}

/// The pattern `^[[:alnum:]]+$`.
pub open spec fn alnum_name_pattern() -> Seq<char> {
    seq!['^', '[', '[', ':', 'a', 'l', 'n', 'u', 'm', ':', ']', ']', '+', '$']
}

/// Relies on regex::Regex::new and regex::Regex::is_match: the class
/// `[[:alnum:]]` is the ASCII class `[0-9A-Za-z]`, and `^`/`$` anchor at the
/// ends of the whole text, so the pattern matches exactly the non-empty texts
/// made of those characters. The pattern compiles, so the error arm is not
/// taken.
#[verifier::external_body]
fn regex_full_match(pattern: &str, text: &str) -> (r: bool)
    requires
        pattern@ == alnum_name_pattern(),
    ensures
        r == valid_user_name(text@),
{
    match regex::Regex::new(pattern) {
        Ok(re) => re.is_match(text),
        Err(_) => false,
    }
}

/// Only ASCII letters and digits are allowed: the client's font is limited.
pub fn is_valid_user_name(text: &str) -> (r: bool)
    ensures
        r == valid_user_name(text@),
{
    let pattern = "^[[:alnum:]]+$";
    proof {
        reveal_strlit("^[[:alnum:]]+$");
        assert(pattern@ =~= alnum_name_pattern());
    }
    regex_full_match(pattern, text)
}


/// Identifier of a connection, as handed out by the world.
pub type ConnectionId = u64;

#[derive(Clone, Copy, Debug, PartialEq, Eq, Structural)]
pub enum Gender {
    Male,
    Female,
}

#[derive(Clone, Copy, Debug, PartialEq, Eq, Structural)]
pub enum Race {
    Human,
    HighElf,
    Aman,
    Castanic,
    ElinPopori,
    Baraka,
}

#[derive(Clone, Copy, Debug, PartialEq, Eq, Structural)]
pub enum Class {
    Warrior,
    Lancer,
    Slayer,
    Berserker,
    Sorcerer,
    Archer,
    Priest,
    Elementalist,
    Soulless,
    Engineer,
    Fighter,
    Assassin,
    Glaiver,
}

/// A rotation in integer steps.
#[derive(Clone, Copy, Debug, PartialEq, Eq, Structural)]
pub struct Vec3a {
    pub x: i32,
    pub y: i32,
    pub z: i32,
}

/// Appearance bytes of a character.
pub struct Customization {
    pub data: Vec<u8>,
}

/// A named custom string of a character.
pub struct CustomString {
    pub string: String,
    pub id: u32,
}

/// One character of the list sent to the client. The style scales and
/// translations, which are floating-point values, are not held here.
pub struct UserListCharacter {
    pub custom_strings: Vec<CustomString>,
    pub name: String,
    pub details: Vec<u8>,
    pub shape: Vec<u8>,
    pub guild_name: String,
    pub db_id: u32,
    pub gender: Gender,
    pub race: Race,
    pub class: Class,
    pub level: i32,
    pub hp: i64,
    pub mp: i32,
    pub world_id: i32,
    pub guard_id: i32,
    pub section_id: i32,
    pub last_logout_time: i64,
    pub is_deleting: bool,
    pub delete_time: i32,
    pub delete_remain_sec: i32,
    pub weapon: u32,
    pub earring1: u32,
    pub earring2: u32,
    pub body: u32,
    pub hand: u32,
    pub feet: u32,
    pub unk_item7: u32,
    pub ring1: u32,
    pub ring2: u32,
    pub underwear: u32,
    pub head: u32,
    pub face: u32,
    pub is_second_character: bool,
    pub admin_level: u32,
    pub is_banned: bool,
    pub ban_end_time: i64,
    pub ban_remain_sec: i32,
    pub rename_needed: i32,
    pub weapon_model: u32,
    pub unk_model2: u32,
    pub unk_model3: u32,
    pub body_model: u32,
    pub hand_model: u32,
    pub feet_model: u32,
    pub unk_model7: u32,
    pub unk_model8: u32,
    pub unk_model9: u32,
    pub unk_model10: u32,
    pub unk_dye1: u32,
    pub unk_dye2: u32,
    pub weapon_dye: u32,
    pub body_dye: u32,
    pub hand_dye: u32,
    pub feet_dye: u32,
    pub unk_dye7: u32,
    pub unk_dye8: u32,
    pub unk_dye9: u32,
    pub underwear_dye: u32,
    pub style_back_dye: u32,
    pub style_head_dye: u32,
    pub style_face_dye: u32,
    pub style_head: u32,
    pub style_face: u32,
    pub style_back: u32,
    pub style_weapon: u32,
    pub style_body: u32,
    pub style_footprint: u32,
    pub style_body_dye: u32,
    pub weapon_enchant: u32,
    pub rest_bonus_xp: u64,
    pub max_rest_bonus_xp: u64,
    pub show_face: bool,
    pub used_style_head_transform: bool,
    pub is_new_character: bool,
    pub tutorial_state: u32,
    pub show_style: bool,
    pub appearance2: u32,
    pub achievement_points: u32,
    pub laurel: u32,
    pub position: u32,
    pub guild_logo_id: u32,
    pub awakening_level: u32,
    pub has_broker_sales: bool,
    pub appearance: Customization,
    pub style_head_rotation: Vec3a,
    pub style_face_rotation: Vec3a,
    pub style_back_rotation: Vec3a,
}

/// The character list of an account.
pub struct UserList {
    pub characters: Vec<UserListCharacter>,
    pub veteran: bool,
    pub bonus_buf_sec: i32,
    pub max_characters: i32,
    pub first: bool,
    pub more: bool,
    pub left_del_time_account_over: i32,
    pub deletion_section_classify_level: i32,
    pub delete_character_expire_hour1: i32,
    pub delete_character_expire_hour2: i32,
}

/// A request about users, as it reaches the user manager.
pub enum UserRequest {
    CanCreateUser { connection_id: ConnectionId },
    GetUserList { connection_id: ConnectionId },
    CheckUserName { connection_id: ConnectionId, name: String },
    /// Any event the user manager does not handle.
    Other,
}

/// The answer to a request about users.
pub enum UserResponse {
    CanCreateUser { connection_id: ConnectionId, ok: bool },
    CheckUserName { connection_id: ConnectionId, ok: bool },
    UserList { connection_id: ConnectionId, list: UserList },
}

#[derive(Clone, Copy, Debug, PartialEq, Eq, Structural)]
pub enum UserError {
    InvalidUserName,
}

/// The character that the list currently holds for every account.
pub open spec fn is_sample_character(c: UserListCharacter) -> bool {
    &&& c.custom_strings@.len() == 1
    &&& c.custom_strings@[0].string@ == "Pantsu"@
    &&& c.custom_strings@[0].id == 254_312
    &&& c.name@ == "Almetica"@
    &&& c.details@ == seq![0u8, 7u8, 0u8, 12u8, 0u8, 0u8, 0u8, 0u8, 26u8, 24u8, 20u8, 0u8, 0u8, 13u8, 7u8, 0u8, 16u8, 0u8, 16u8, 16u8, 0u8, 0u8, 0u8, 14u8, 17u8, 29u8, 12u8, 24u8, 26u8, 16u8, 7u8, 3u8]
    &&& c.shape@ == seq![1u8, 19u8, 16u8, 19u8, 19u8, 16u8, 19u8, 19u8, 19u8, 16u8, 16u8, 16u8, 16u8, 15u8, 15u8, 15u8, 16u8, 19u8, 10u8, 0u8, 22u8, 23u8, 9u8, 0u8, 0u8, 0u8, 0u8, 0u8, 0u8, 0u8, 0u8, 0u8, 0u8, 0u8, 0u8, 0u8, 0u8, 0u8, 0u8, 0u8, 0u8, 0u8, 0u8, 0u8, 0u8, 0u8, 0u8, 0u8, 0u8, 0u8, 0u8, 0u8, 0u8, 0u8, 0u8, 0u8, 0u8, 0u8, 0u8, 0u8, 0u8, 0u8, 0u8, 0u8]
    &&& c.guild_name@ == ""@
    &&& c.db_id == 2_000_131
    &&& c.gender == Gender::Female
    &&& c.race == Race::ElinPopori
    &&& c.class == Class::Lancer
    &&& c.level == 65
    &&& c.hp == 121_111
    &&& c.mp == 2000
    &&& c.world_id == 1
    &&& c.guard_id == 2
    &&& c.section_id == 8
    &&& c.last_logout_time == 1_584_074_481
    &&& !c.is_deleting
    &&& c.delete_time == 86400
    &&& c.delete_remain_sec == -1_585_902_611
    &&& c.weapon == 28369
    &&& c.earring1 == 96399
    &&& c.earring2 == 96398
    &&& c.body == 96281
    &&& c.hand == 96283
    &&& c.feet == 96285
    &&& c.unk_item7 == 0
    &&& c.ring1 == 96392
    &&& c.ring2 == 96391
    &&& c.underwear == 179_035
    &&& c.head == 50056
    &&& c.face == 5
    &&& !c.is_second_character
    &&& c.admin_level == 0
    &&& !c.is_banned
    &&& c.ban_end_time == 0
    &&& c.ban_remain_sec == -1_585_989_011
    &&& c.rename_needed == 0
    &&& c.weapon_model == 0
    &&& c.unk_model2 == 0
    &&& c.unk_model3 == 0
    &&& c.body_model == 0
    &&& c.hand_model == 0
    &&& c.feet_model == 0
    &&& c.unk_model7 == 0
    &&& c.unk_model8 == 0
    &&& c.unk_model9 == 0
    &&& c.unk_model10 == 0
    &&& c.unk_dye1 == 0
    &&& c.unk_dye2 == 0
    &&& c.weapon_dye == 0
    &&& c.body_dye == 0
    &&& c.hand_dye == 0
    &&& c.feet_dye == 0
    &&& c.unk_dye7 == 0
    &&& c.unk_dye8 == 0
    &&& c.unk_dye9 == 0
    &&& c.underwear_dye == 0
    &&& c.style_back_dye == 0
    &&& c.style_head_dye == 0
    &&& c.style_face_dye == 0
    &&& c.style_head == 177_018
    &&& c.style_face == 0
    &&& c.style_back == 0
    &&& c.style_weapon == 170_029
    &&& c.style_body == 177_761
    &&& c.style_footprint == 0
    &&& c.style_body_dye == 421_075_260
    &&& c.weapon_enchant == 15
    &&& c.rest_bonus_xp == 292_832_832
    &&& c.max_rest_bonus_xp == 292_832_844
    &&& c.show_face
    &&& !c.used_style_head_transform
    &&& !c.is_new_character
    &&& c.tutorial_state == 0
    &&& c.show_style
    &&& c.appearance2 == 100
    &&& c.achievement_points == 13565
    &&& c.laurel == 0
    &&& c.position == 1
    &&& c.guild_logo_id == 4521
    &&& c.awakening_level == 0
    &&& !c.has_broker_sales
    &&& c.appearance.data@ == seq![0u8, 0u8, 0u8, 0u8, 0u8, 0u8, 0u8, 0u8]
    &&& c.style_head_rotation == (Vec3a { x: 0, y: 0, z: 0 })
    &&& c.style_face_rotation == (Vec3a { x: 0, y: 0, z: 0 })
    &&& c.style_back_rotation == (Vec3a { x: 0, y: 0, z: 0 })
}

/// The list currently sent for every account: one sample character.
pub open spec fn is_sample_list(l: UserList) -> bool {
    &&& l.characters@.len() == 1
    &&& is_sample_character(l.characters@[0])
    &&& !l.veteran
    &&& l.bonus_buf_sec == 0
    &&& l.max_characters == 12
    &&& l.first
    &&& !l.more
    &&& l.left_del_time_account_over == 0
    &&& l.deletion_section_classify_level == 40
    &&& l.delete_character_expire_hour1 == 0
    &&& l.delete_character_expire_hour2 == 24
}

/// Whether the user manager answers `e`.
pub open spec fn is_answered(e: UserRequest) -> bool {
    !(e is Other)
}

/// `r` is the answer owed to `e`.
pub open spec fn answers(e: UserRequest, r: UserResponse) -> bool {
    match e {
        UserRequest::CanCreateUser { connection_id } => r == (UserResponse::CanCreateUser {
            connection_id,
            ok: true,
        }),
        UserRequest::GetUserList { connection_id } => match r {
            UserResponse::UserList { connection_id: c, list } => c == connection_id
                && is_sample_list(list),
            _ => false,
        },
        UserRequest::CheckUserName { connection_id, name } => r == (UserResponse::CheckUserName {
            connection_id,
            ok: valid_user_name(name@),
        }),
        UserRequest::Other => false,
    }
}

/// The requests among `s` that get an answer, in order.
pub open spec fn answered_requests(s: Seq<UserRequest>) -> Seq<UserRequest>
    decreases s.len(),
{
    if s.len() == 0 {
        Seq::empty()
    } else {
        let rest = answered_requests(s.drop_last());
        if is_answered(s.last()) {
            rest.push(s.last())
        } else {
            rest
        }
    }
}

pub fn assemble_can_create_user_response(connection_id: ConnectionId, ok: bool) -> (r: UserResponse)
    ensures
        r == (UserResponse::CanCreateUser { connection_id, ok }),
{
    UserResponse::CanCreateUser { connection_id, ok }
}

pub fn assemble_check_user_name_response(connection_id: ConnectionId, ok: bool) -> (r: UserResponse)
    ensures
        r == (UserResponse::CheckUserName { connection_id, ok }),
{
    UserResponse::CheckUserName { connection_id, ok }
}

/// Whether the account may create another character; for now it always may.
pub fn handle_can_create_user(connection_id: ConnectionId) -> (r: UserResponse)
    ensures
        r == (UserResponse::CanCreateUser { connection_id, ok: true }),
{
    assemble_can_create_user_response(connection_id, true)
}

/// Accepts a name that the policy allows; the name is not yet checked
/// against the names already taken.
pub fn handle_check_user_name(name: &str, connection_id: ConnectionId) -> (r: Result<
    UserResponse,
    UserError,
>)
    ensures
        valid_user_name(name@) ==> r == Ok::<UserResponse, UserError>(
            UserResponse::CheckUserName { connection_id, ok: true },
        ),
        !valid_user_name(name@) ==> r == Err::<UserResponse, UserError>(UserError::InvalidUserName),
{
    if !is_valid_user_name(name) {
        return Err(UserError::InvalidUserName);
    }
    Ok(assemble_check_user_name_response(connection_id, true))
}


/// The character list of an account; a fixed sample until characters are
/// stored.
pub fn handle_user_list(connection_id: ConnectionId) -> (r: UserResponse)
    ensures
        answers(UserRequest::GetUserList { connection_id }, r),
{
    let custom_strings = vec![CustomString { string: "Pantsu".to_owned(), id: 254_312 }];
    let details: Vec<u8> = vec![0, 7, 0, 12, 0, 0, 0, 0, 26, 24, 20, 0, 0, 13, 7, 0, 16, 0, 16, 16, 0, 0, 0, 14, 17, 29, 12, 24, 26, 16, 7, 3];
    let shape: Vec<u8> = vec![1, 19, 16, 19, 19, 16, 19, 19, 19, 16, 16, 16, 16, 15, 15, 15, 16, 19, 10, 0, 22, 23, 9, 0, 0, 0, 0, 0, 0, 0, 0, 0, 0, 0, 0, 0, 0, 0, 0, 0, 0, 0, 0, 0, 0, 0, 0, 0, 0, 0, 0, 0, 0, 0, 0, 0, 0, 0, 0, 0, 0, 0, 0, 0];
    let appearance = Customization { data: vec![0, 0, 0, 0, 0, 0, 0, 0] };
    let character = UserListCharacter {
        custom_strings,
        name: "Almetica".to_owned(),
        details,
        shape,
        guild_name: String::new(),
        db_id: 2_000_131,
        gender: Gender::Female,
        race: Race::ElinPopori,
        class: Class::Lancer,
        level: 65,
        hp: 121_111,
        mp: 2000,
        world_id: 1,
        guard_id: 2,
        section_id: 8,
        last_logout_time: 1_584_074_481,
        is_deleting: false,
        delete_time: 86400,
        delete_remain_sec: -1_585_902_611,
        weapon: 28369,
        earring1: 96399,
        earring2: 96398,
        body: 96281,
        hand: 96283,
        feet: 96285,
        unk_item7: 0,
        ring1: 96392,
        ring2: 96391,
        underwear: 179_035,
        head: 50056,
        face: 5,
        is_second_character: false,
        admin_level: 0,
        is_banned: false,
        ban_end_time: 0,
        ban_remain_sec: -1_585_989_011,
        rename_needed: 0,
        weapon_model: 0,
        unk_model2: 0,
        unk_model3: 0,
        body_model: 0,
        hand_model: 0,
        feet_model: 0,
        unk_model7: 0,
        unk_model8: 0,
        unk_model9: 0,
        unk_model10: 0,
        unk_dye1: 0,
        unk_dye2: 0,
        weapon_dye: 0,
        body_dye: 0,
        hand_dye: 0,
        feet_dye: 0,
        unk_dye7: 0,
        unk_dye8: 0,
        unk_dye9: 0,
        underwear_dye: 0,
        style_back_dye: 0,
        style_head_dye: 0,
        style_face_dye: 0,
        style_head: 177_018,
        style_face: 0,
        style_back: 0,
        style_weapon: 170_029,
        style_body: 177_761,
        style_footprint: 0,
        style_body_dye: 421_075_260,
        weapon_enchant: 15,
        rest_bonus_xp: 292_832_832,
        max_rest_bonus_xp: 292_832_844,
        show_face: true,
        used_style_head_transform: false,
        is_new_character: false,
        tutorial_state: 0,
        show_style: true,
        appearance2: 100,
        achievement_points: 13565,
        laurel: 0,
        position: 1,
        guild_logo_id: 4521,
        awakening_level: 0,
        has_broker_sales: false,
        appearance,
        style_head_rotation: Vec3a { x: 0, y: 0, z: 0 },
        style_face_rotation: Vec3a { x: 0, y: 0, z: 0 },
        style_back_rotation: Vec3a { x: 0, y: 0, z: 0 },
    };
    proof {
        reveal_strlit("");
        assert(character.guild_name@ =~= ""@);
        assert(character.details@ =~= seq![0u8, 7u8, 0u8, 12u8, 0u8, 0u8, 0u8, 0u8, 26u8, 24u8, 20u8, 0u8, 0u8, 13u8, 7u8, 0u8, 16u8, 0u8, 16u8, 16u8, 0u8, 0u8, 0u8, 14u8, 17u8, 29u8, 12u8, 24u8, 26u8, 16u8, 7u8, 3u8]);
        assert(character.shape@ =~= seq![1u8, 19u8, 16u8, 19u8, 19u8, 16u8, 19u8, 19u8, 19u8, 16u8, 16u8, 16u8, 16u8, 15u8, 15u8, 15u8, 16u8, 19u8, 10u8, 0u8, 22u8, 23u8, 9u8, 0u8, 0u8, 0u8, 0u8, 0u8, 0u8, 0u8, 0u8, 0u8, 0u8, 0u8, 0u8, 0u8, 0u8, 0u8, 0u8, 0u8, 0u8, 0u8, 0u8, 0u8, 0u8, 0u8, 0u8, 0u8, 0u8, 0u8, 0u8, 0u8, 0u8, 0u8, 0u8, 0u8, 0u8, 0u8, 0u8, 0u8, 0u8, 0u8, 0u8, 0u8]);
        assert(character.appearance.data@ =~= seq![0u8, 0u8, 0u8, 0u8, 0u8, 0u8, 0u8, 0u8]);
    }
    let list = UserList {
        characters: vec![character],
        veteran: false,
        bonus_buf_sec: 0,
        max_characters: 12,
        first: true,
        more: false,
        left_del_time_account_over: 0,
        deletion_section_classify_level: 40,
        delete_character_expire_hour1: 0,
        delete_character_expire_hour2: 24,
    };
    UserResponse::UserList { connection_id, list }
}

/// The answer to one request, if it gets one. A name that the policy
/// refuses is answered with `ok == false`.
pub fn respond(event: &UserRequest) -> (r: Option<UserResponse>)
    ensures
        is_answered(*event) <==> r is Some,
        r matches Some(resp) ==> answers(*event, resp),
{
    match event {
        UserRequest::CanCreateUser { connection_id } => Some(
            handle_can_create_user(*connection_id),
        ),
        UserRequest::GetUserList { connection_id } => Some(handle_user_list(*connection_id)),
        UserRequest::CheckUserName { connection_id, name } => {
            match handle_check_user_name(name.as_str(), *connection_id) {
                Ok(resp) => Some(resp),
                Err(_) => Some(assemble_check_user_name_response(*connection_id, false)),
            }
        },
        UserRequest::Other => None,
    }
}

/// Answers each request that the user manager handles, in order, and
/// ignores the others.
pub fn user_manager_system(events: &Vec<UserRequest>) -> (r: Vec<UserResponse>)
    ensures
        r@.len() == answered_requests(events@).len(),
        forall|i: int|
            0 <= i < r@.len() ==> answers(answered_requests(events@)[i], #[trigger] r@[i]),
{
    let mut out: Vec<UserResponse> = Vec::new();
    let mut i: usize = 0;
    while i < events.len()
        invariant
            i <= events@.len(),
            out@.len() == answered_requests(events@.subrange(0, i as int)).len(),
            forall|j: int|
                0 <= j < out@.len() ==> answers(
                    answered_requests(events@.subrange(0, i as int))[j],
                    #[trigger] out@[j],
                ),
        decreases events@.len() - i,
    {
        let ghost prev = events@.subrange(0, i as int);
        let ghost cur = events@.subrange(0, i + 1);
        proof {
            assert(cur.drop_last() =~= prev);
            assert(cur.last() == events@[i as int]);
        }
        let answer = respond(&events[i]);
        match answer {
            Some(resp) => {
                out.push(resp);
            },
            None => {},
        }
        i = i + 1;
    }
    proof {
        assert(events@.subrange(0, events@.len() as int) =~= events@);
    }
    out
}

} // verus!
