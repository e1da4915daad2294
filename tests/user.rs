use almetica::user::{
    handle_check_user_name, is_valid_user_name, user_manager_system, Class, Gender, Race,
    UserError, UserRequest, UserResponse,
};

fn count_ok_can_create(responses: &[UserResponse]) -> usize {
    responses
        .iter()
        .filter(|r| match r {
            UserResponse::CanCreateUser { ok, .. } => *ok,
            _ => false,
        })
        .count()
}

fn check_name_results(responses: &[UserResponse]) -> Vec<bool> {
    responses
        .iter()
        .filter_map(|r| match r {
            UserResponse::CheckUserName { ok, .. } => Some(*ok),
            _ => None,
        })
        .collect()
}

#[test]
fn test_can_create_user_true() {
    let connection_id = 7;
    let events: Vec<UserRequest> = (0..5)
        .map(|_| UserRequest::CanCreateUser { connection_id })
        .collect();
    let responses = user_manager_system(&events);
    assert_eq!(count_ok_can_create(&responses), 5);
}

#[test]
fn test_is_valid_user_name() {
    // Valid user names
    assert!(is_valid_user_name("Simple"));
    assert!(is_valid_user_name("Simple123"));
    assert!(is_valid_user_name("654562312"));

    // Invalid user names
    assert!(!is_valid_user_name("Simp le"));
    assert!(!is_valid_user_name("Simple!"));
    assert!(!is_valid_user_name("Simple "));
    assert!(!is_valid_user_name(" Simple"));
    assert!(!is_valid_user_name("´test`"));
    assert!(!is_valid_user_name(""));
    assert!(!is_valid_user_name(" "));
    assert!(!is_valid_user_name("\n"));
    assert!(!is_valid_user_name("\t"));
    assert!(!is_valid_user_name("기브스"));
    assert!(!is_valid_user_name("ダース"));
    assert!(!is_valid_user_name("การเดินทาง"));
    assert!(!is_valid_user_name("العربية"));
}

#[test]
fn test_check_user_name_available() {
    let connection_id = 3;
    let events: Vec<UserRequest> = (0..5)
        .map(|i| UserRequest::CheckUserName {
            connection_id,
            name: format!("NotTakenUserName{}", i),
        })
        .collect();
    let responses = user_manager_system(&events);
    let results = check_name_results(&responses);
    assert_eq!(results.iter().filter(|ok| **ok).count(), 5);
}

#[test]
fn test_check_user_name_invalid_username() {
    let connection_id = 3;
    let events: Vec<UserRequest> = (0..5)
        .map(|i| UserRequest::CheckUserName {
            connection_id,
            name: format!("H!x?or{}", i),
        })
        .collect();
    let responses = user_manager_system(&events);
    let results = check_name_results(&responses);
    assert_eq!(results.iter().filter(|ok| !**ok).count(), 5);
}

#[test]
fn check_user_name_valid_answers_ok() {
    let events = vec![UserRequest::CheckUserName {
        connection_id: 11,
        name: "NotTaken0".to_string(),
    }];
    let responses = user_manager_system(&events);
    assert_eq!(responses.len(), 1);
    match &responses[0] {
        UserResponse::CheckUserName { connection_id, ok } => {
            assert_eq!(*connection_id, 11);
            assert!(*ok);
        }
        _ => panic!("wrong response"),
    }
}

#[test]
fn check_user_name_invalid_answers_not_ok() {
    let events = vec![UserRequest::CheckUserName {
        connection_id: 11,
        name: "H!x?or0".to_string(),
    }];
    let responses = user_manager_system(&events);
    assert_eq!(responses.len(), 1);
    match &responses[0] {
        UserResponse::CheckUserName { connection_id, ok } => {
            assert_eq!(*connection_id, 11);
            assert!(!*ok);
        }
        _ => panic!("wrong response"),
    }
}

#[test]
fn check_user_name_error_variant() {
    assert_eq!(
        handle_check_user_name("Simple!", 1).err(),
        Some(UserError::InvalidUserName)
    );
    assert!(handle_check_user_name("Simple", 1).is_ok());
}

#[test]
fn user_list_holds_sample_character() {
    let events = vec![UserRequest::GetUserList { connection_id: 42 }];
    let responses = user_manager_system(&events);
    assert_eq!(responses.len(), 1);
    match &responses[0] {
        UserResponse::UserList { connection_id, list } => {
            assert_eq!(*connection_id, 42);
            assert_eq!(list.characters.len(), 1);
            let c = &list.characters[0];
            assert_eq!(c.name, "Almetica");
            assert_eq!(c.level, 65);
            assert_eq!(c.race, Race::ElinPopori);
            assert_eq!(c.class, Class::Lancer);
            assert_eq!(c.gender, Gender::Female);
            assert_eq!(c.custom_strings.len(), 1);
            assert_eq!(c.custom_strings[0].string, "Pantsu");
            assert_eq!(c.custom_strings[0].id, 254_312);
            assert_eq!(c.details.len(), 32);
            assert_eq!(c.shape.len(), 64);
            assert_eq!(c.appearance.data, vec![0u8; 8]);
            assert_eq!(c.style_body_dye, 421_075_260);
            assert_eq!(c.ban_remain_sec, -1_585_989_011);
            assert_eq!(c.rest_bonus_xp, 292_832_832);
            assert_eq!(list.delete_character_expire_hour2, 24);
            assert_eq!(list.max_characters, 12);
            assert!(list.first);
            assert!(!list.more);
        }
        _ => panic!("wrong response"),
    }
}

#[test]
fn other_events_are_ignored_and_order_kept() {
    let events = vec![
        UserRequest::Other,
        UserRequest::CanCreateUser { connection_id: 1 },
        UserRequest::Other,
        UserRequest::CheckUserName {
            connection_id: 2,
            name: "Bad name".to_string(),
        },
    ];
    let responses = user_manager_system(&events);
    assert_eq!(responses.len(), 2);
    assert!(matches!(
        responses[0],
        UserResponse::CanCreateUser { connection_id: 1, ok: true }
    ));
    assert!(matches!(
        responses[1],
        UserResponse::CheckUserName { connection_id: 2, ok: false }
    ));
    assert!(user_manager_system(&Vec::new()).is_empty());
}
