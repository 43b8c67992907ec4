use cyber_crush::admission::AdmissionVerdict;
use cyber_crush::auth::{
    after_collision_check, after_store, generate_token, login_after_issue, login_after_lookup, token_check_reply,
    verify_password, CollisionStep, IssueAction, LoginStep, TokenIssuer, MAX_TOKEN_ATTEMPTS,
};
use cyber_crush::bank::{transfer_account, transfer_refusal, user_funds_response, Party, TransferStep};
use cyber_crush::chat_request_component::{
    access_refusal, admin_refusal, direct_chat_failure, direct_chat_metadata, existing_direct_chat,
    group_chat_admin, group_chat_failure, group_chat_metadata, history_in_order, member_update_status,
    ChatMetaData, CreateNewDirectChatResponse, DirectChatStep, GroupChatStep, GroupMemberUpdate,
};
use cyber_crush::common::{token_validation_response, user_id_lookup_response, IdLookup, ResponseStatus};
use cyber_crush::common_chat::{get_chat_type, ChatType};
use cyber_crush::common_requests::validation_reply;
use cyber_crush::data::{all_usernames_response, user_data_response, GetUserDataResponse, UserDataRecord};
use cyber_crush::news::{article_publisher, post_refusal, PostStep};
use cyber_crush::persistence::{after_stage, first_stage, summary_update_statement, PersistAction, PersistStage};
use cyber_crush::server_configurator::{ServerConfiguration, ServerType};
use cyber_crush::text::i32_to_decimal;

fn config() -> ServerConfiguration {
    ServerConfiguration {
        database_name: "crush".to_string(),
        database_admin_username: "admin".to_string(),
        database_admin_password: "pw".to_string(),
        database_url: "localhost:5432".to_string(),
        database_password_pepper: "pepper".to_string(),
        server_address: "127.0.0.1".to_string(),
        authentication_server_port: 8080,
        data_server_port: 8081,
        bank_server_port: 8082,
        chat_server_port: 9,
    }
}

#[test]
fn decimal_text() {
    assert_eq!(i32_to_decimal(0), "0");
    assert_eq!(i32_to_decimal(7), "7");
    assert_eq!(i32_to_decimal(1234), "1234");
    assert_eq!(i32_to_decimal(-56), "-56");
    assert_eq!(i32_to_decimal(i32::MAX), "2147483647");
    assert_eq!(i32_to_decimal(i32::MIN), "-2147483648");
}

#[test]
fn response_status_constructors() {
    let ok = ResponseStatus::success();
    assert!(ok.success);
    assert_eq!(ok.status_message, "Success");
    let bad = ResponseStatus::fail("nope".to_string());
    assert!(!bad.success);
    assert_eq!(bad.status_message, "nope");
}

#[test]
fn token_validation_answers() {
    let r = token_validation_response(IdLookup::Found(3));
    assert!(r.response_status.success);
    assert_eq!(r.id, Some(3));
    let r = token_validation_response(IdLookup::Missing);
    assert_eq!(r.response_status.status_message, "Token not validated");
    assert_eq!(r.id, None);
    let r = token_validation_response(IdLookup::Failed);
    assert_eq!(r.response_status.status_message, "Token validation server internal error.");
    let r = user_id_lookup_response(IdLookup::Missing);
    assert_eq!(r.response_status.status_message, "User not found");
    let r = validation_reply(IdLookup::Found(1));
    assert!(r.success);
    assert_eq!(r.message, "success");
    let r = token_check_reply(IdLookup::Failed);
    assert!(!r.success);
    assert_eq!(r.message, "Token validation error.");
}

#[test]
fn configuration_texts() {
    let c = config();
    assert_eq!(c.get_posgres_connection_url(), "postgres://admin:pw@localhost:5432/crush");
    assert_eq!(c.socket_addr_text(ServerType::Authentication), "127.0.0.1:8080");
    assert_eq!(c.socket_addr_text(ServerType::Bank), "127.0.0.1:8082");
    assert_eq!(c.socket_addr_text(ServerType::Chat), "127.0.0.1:9");
}

#[test]
fn chat_type_codes() {
    assert_eq!(get_chat_type(Ok(1)), Ok(ChatType::Direct));
    assert_eq!(get_chat_type(Ok(2)), Ok(ChatType::Group));
    assert_eq!(get_chat_type(Ok(0)), Err("Unknown chat type".to_string()));
    assert_eq!(get_chat_type(Err(())), Err("Internal chat identification server error".to_string()));
}

#[test]
fn summary_statement_follows_kind() {
    assert!(summary_update_statement(ChatType::Direct).starts_with("UPDATE direct_chats "));
    assert!(summary_update_statement(ChatType::Group).starts_with("UPDATE group_chats "));
}

#[test]
fn persistence_stages() {
    let mut stage = first_stage();
    let mut seen = vec![stage];
    loop {
        match after_stage(stage, true) {
            PersistAction::Run(next) => {
                seen.push(next);
                stage = next;
            }
            PersistAction::Finish(done) => {
                assert!(done);
                break;
            }
            PersistAction::RollBack => panic!("no rollback when every stage succeeds"),
        }
    }
    assert_eq!(seen.len(), 5);
    assert_eq!(after_stage(PersistStage::InsertMessage, false), PersistAction::RollBack);
    assert_eq!(after_stage(PersistStage::UpdateSummary, false), PersistAction::RollBack);
    assert_eq!(after_stage(PersistStage::Commit, false), PersistAction::Finish(false));
    assert_eq!(after_stage(PersistStage::ResolveKind, false), PersistAction::Finish(false));
}

#[test]
fn chat_access_refusals() {
    assert!(access_refusal(AdmissionVerdict::Admitted(1)).is_none());
    assert_eq!(access_refusal(AdmissionVerdict::InvalidToken).unwrap().status_message, "Token validation failed");
    assert_eq!(access_refusal(AdmissionVerdict::NotMember).unwrap().status_message, "Not a chat member");
    assert_eq!(access_refusal(AdmissionVerdict::MembershipCheckFailed).unwrap().status_message, "Internal server error: 1");
}

#[test]
fn history_comes_oldest_first() {
    assert_eq!(history_in_order(vec![3, 2, 1]), vec![1, 2, 3]);
    assert_eq!(history_in_order(Vec::<i32>::new()), Vec::<i32>::new());
}

#[test]
fn direct_metadata_needs_two_members() {
    let r = direct_chat_metadata(Ok(vec!["ann".to_string(), "bob".to_string()]));
    assert!(r.response_status.success);
    match r.chat_meta_data {
        Some(ChatMetaData::Direct(d)) => {
            assert_eq!(d.username_a, "ann");
            assert_eq!(d.username_b, "bob");
        }
        _ => panic!("expected direct metadata"),
    }
    let r = direct_chat_metadata(Ok(vec!["ann".to_string()]));
    assert_eq!(r.response_status.status_message, "Invalid user amount");
    assert!(r.chat_meta_data.is_none());
    let r = direct_chat_metadata(Err(()));
    assert_eq!(r.response_status.status_message, "Internal server error: 3");
}

#[test]
fn group_metadata() {
    assert_eq!(group_chat_admin(Ok(Some("adm".to_string()))).ok(), Some("adm".to_string()));
    match group_chat_admin(Ok(None)) {
        Err(r) => assert_eq!(r.response_status.status_message, "Admin not found"),
        Ok(_) => panic!("expected a refusal"),
    }
    match group_chat_admin(Err(())) {
        Err(r) => assert_eq!(r.response_status.status_message, "Internal server error: 4"),
        Ok(_) => panic!("expected a refusal"),
    }
    let r = group_chat_metadata("adm".to_string(), Ok(vec!["adm".to_string(), "x".to_string()]));
    match r.chat_meta_data {
        Some(ChatMetaData::Group(g)) => {
            assert_eq!(g.admin_username, "adm");
            assert_eq!(g.members, vec!["adm".to_string(), "x".to_string()]);
        }
        _ => panic!("expected group metadata"),
    }
    let r = group_chat_metadata("adm".to_string(), Err(()));
    assert_eq!(r.response_status.status_message, "Internal server error: 5");
}

#[test]
fn group_member_updates() {
    assert_eq!(admin_refusal(Ok(0)).unwrap().status_message, "Not a group admin");
    assert_eq!(admin_refusal(Err(())).unwrap().status_message, "Internal server error: 1");
    assert!(admin_refusal(Ok(1)).is_none());
    let add = GroupMemberUpdate::AddMember("x".to_string());
    let del = GroupMemberUpdate::DeleteMember("x".to_string());
    assert!(member_update_status(&add, true).success);
    assert_eq!(member_update_status(&add, false).status_message, "Internal server error: 2");
    assert_eq!(member_update_status(&del, false).status_message, "Internal server error: 3");
}

#[test]
fn direct_chat_creation_answers() {
    let r = CreateNewDirectChatResponse::success(12);
    assert!(r.response_status.success);
    assert_eq!(r.chat_id, Some(12));
    let r = CreateNewDirectChatResponse::fail("why");
    assert_eq!(r.response_status.status_message, "why");
    assert_eq!(r.chat_id, None);
    let r = existing_direct_chat(Ok(Some(9))).unwrap();
    assert_eq!(r.response_status.status_message, "Direct chat already exsits!");
    assert_eq!(r.chat_id, Some(9));
    assert!(existing_direct_chat(Ok(None)).is_none());
    assert!(existing_direct_chat(Err(())).is_none());
    assert_eq!(direct_chat_failure(DirectChatStep::ValidateToken).response_status.status_message, "Token validation failed");
    assert_eq!(direct_chat_failure(DirectChatStep::FindPartner).response_status.status_message, "Partner does not exist");
    assert_eq!(direct_chat_failure(DirectChatStep::AttachUsers).response_status.status_message, "Internal server error: 3");
    assert_eq!(direct_chat_failure(DirectChatStep::Commit).response_status.status_message, "Internal server error: 5");
}

#[test]
fn group_chat_creation_answers() {
    assert_eq!(group_chat_failure(GroupChatStep::ValidateToken).response_status.status_message, "Token validation failed");
    assert_eq!(group_chat_failure(GroupChatStep::CreateGroupChat).response_status.status_message, "Internal server error: 4");
    assert_eq!(group_chat_failure(GroupChatStep::Commit).chat_id, None);
}

#[test]
fn bank_answers() {
    let r = user_funds_response(Ok(Some(250)));
    assert!(r.response_status.success);
    assert_eq!(r.funds, 250);
    let r = user_funds_response(Ok(None));
    assert_eq!(r.funds, -1);
    assert_eq!(r.response_status.status_message, "No account found for this token");
    assert_eq!(transfer_account(Party::Sender, Ok(Some(4))).ok(), Some(4));
    assert_eq!(transfer_account(Party::Receiver, Ok(None)).err().unwrap().status_message, "Receiver not found");
    assert_eq!(
        transfer_account(Party::Sender, Err(())).err().unwrap().status_message,
        "No bank account found(sender). Server Error!"
    );
    assert_eq!(transfer_refusal(TransferStep::Subtract, Ok(0)).unwrap().status_message, "Not enouch funds");
    assert!(transfer_refusal(TransferStep::Subtract, Ok(1)).is_none());
    assert_eq!(transfer_refusal(TransferStep::Add, Ok(2)).unwrap().status_message, "Internal server Error: 4!");
    assert_eq!(transfer_refusal(TransferStep::Record, Err(())).unwrap().status_message, "Internal server Error: 7!");
    assert_eq!(transfer_refusal(TransferStep::Commit, Err(())).unwrap().status_message, "Internal server Error: 8!");
    assert!(transfer_refusal(TransferStep::Begin, Ok(0)).is_none());
}

#[test]
fn news_answers() {
    assert_eq!(article_publisher(Ok(Some(3))).ok(), Some(3));
    assert_eq!(article_publisher(Ok(None)).err().unwrap().status_message, "Post publisher not found");
    assert_eq!(post_refusal(PostStep::Insert, Ok(0)).unwrap().status_message, "News article failed to post");
    assert_eq!(post_refusal(PostStep::Insert, Ok(3)).unwrap().status_message, "Posting news internal server error: 2!");
    assert!(post_refusal(PostStep::Insert, Ok(1)).is_none());
    assert_eq!(post_refusal(PostStep::Commit, Err(())).unwrap().status_message, "Posting news internal server error: 4!");
}

#[test]
fn user_data_answers() {
    let r = user_data_response(Ok(Some(UserDataRecord {
        username: "ann".to_string(),
        personal_number: 9001,
        extra_data: "{\"a\":1}".to_string(),
    })));
    assert!(r.success);
    assert_eq!(r.personal_number, "9001");
    assert_eq!(r.extra_data, "{\"a\":1}");
    let r = user_data_response(Ok(None));
    assert_eq!(r.message, "No user data found.");
    assert_eq!(r.username, "");
    let r = user_data_response(Err(()));
    assert_eq!(r.message, "No user data found. Server error!");
    assert_eq!((r.username.as_str(), r.personal_number.as_str(), r.extra_data.as_str()), ("", "", ""));
    let r = GetUserDataResponse::fail("x");
    assert!(!r.success);
    let r = all_usernames_response(Ok(vec!["a".to_string(), "b".to_string()]));
    assert_eq!(r.usernames.len(), 2);
    let r = all_usernames_response(Err(()));
    assert_eq!(r.message, "No usernames found: Server error!");
}

#[test]
fn generated_tokens_are_hex_of_thirty_two_bytes() {
    let t = generate_token().expect("the generator failed");
    assert_eq!(t.len(), 64);
    assert!(t.chars().all(|c| c.is_ascii_digit() || ('a'..='f').contains(&c)));
    let u = generate_token().expect("the generator failed");
    assert_ne!(t, u);
}

#[test]
fn token_issuer_gives_up_after_the_last_attempt() {
    let mut issuer = TokenIssuer::new();
    for _ in 0..MAX_TOKEN_ATTEMPTS {
        match issuer.next_token() {
            IssueAction::CheckCollision(t) => assert_eq!(t.len(), 64),
            IssueAction::Finish(r) => panic!("gave up early: {:?}", r),
        }
    }
    assert_eq!(issuer.attempts(), MAX_TOKEN_ATTEMPTS);
    match issuer.next_token() {
        IssueAction::Finish(Err(e)) => assert_eq!(e, "No token yielded."),
        _ => panic!("expected to give up"),
    }
}

#[test]
fn token_storage_answers() {
    assert!(matches!(after_collision_check("t".to_string(), Ok(false)), CollisionStep::Store(ref t) if t == "t"));
    assert!(matches!(after_collision_check("t".to_string(), Ok(true)), CollisionStep::Retry));
    assert!(matches!(after_collision_check("t".to_string(), Err(())), CollisionStep::Fail(ref e) if e == "Database error. Token collision."));
    assert_eq!(after_store("t".to_string(), Ok(1)), Ok("t".to_string()));
    assert_eq!(after_store("t".to_string(), Ok(0)), Err("Database error. No user for token.".to_string()));
    assert_eq!(after_store("t".to_string(), Err(())), Err("Database error. Token update error.".to_string()));
}

#[test]
fn password_checks() {
    assert!(verify_password("not a phc string", "pw", "pepper").is_err());
    let phc = "$argon2id$v=19$m=19456,t=2,p=1$c29tZXNhbHQ$AAAAAAAAAAAAAAAAAAAAAAAAAAAAAAAAAAAAAAAAAAA";
    assert_eq!(verify_password(phc, "pw", "pepper").ok(), Some(false));
}

#[test]
fn login_answers() {
    match login_after_lookup(Ok(None), "pw", "pep") {
        LoginStep::Reply(r) => {
            assert!(!r.success);
            assert_eq!(r.message, "User not found.");
        }
        LoginStep::IssueToken(_) => panic!("no user, no token"),
    }
    match login_after_lookup(Err(()), "pw", "pep") {
        LoginStep::Reply(r) => assert_eq!(r.message, "Login database error."),
        LoginStep::IssueToken(_) => panic!("no token on a failed lookup"),
    }
    match login_after_lookup(Ok(Some((1, "garbage".to_string()))), "pw", "pep") {
        LoginStep::Reply(r) => assert_eq!(r.message, "Password decodeing error."),
        LoginStep::IssueToken(_) => panic!("no token for a bad hash"),
    }
    let phc = "$argon2id$v=19$m=19456,t=2,p=1$c29tZXNhbHQ$AAAAAAAAAAAAAAAAAAAAAAAAAAAAAAAAAAAAAAAAAAA";
    match login_after_lookup(Ok(Some((1, phc.to_string()))), "pw", "pep") {
        LoginStep::Reply(r) => assert_eq!(r.message, "Wrong credentials."),
        LoginStep::IssueToken(_) => panic!("wrong password accepted"),
    }
    let r = login_after_issue(Ok("abc".to_string()));
    assert!(r.success);
    assert_eq!(r.token, "abc");
    let r = login_after_issue(Err("why".to_string()));
    assert!(!r.success);
    assert_eq!(r.message, "why");
    assert_eq!(r.token, "");
}
