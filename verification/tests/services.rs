use moetran_native::auth::{aquire_token, captcha_path, get_captcha, token_path, ResCaptcha, ResToken};
use moetran_native::defer::WarnDefer;
use moetran_native::http::{
    moetran_get, moetran_post_opt, pair, poprako_get, poprako_post_opt, read_response,
    text_is_blank, HttpError,
};
use moetran_native::member::{
    active_members_request, get_active_members, get_member_info, get_members,
    GetActiveMembersReq, PoprakoActiveMemberRaw, PoprakoMemberInfo, PoprakoMemberSearchRaw,
};
use moetran_native::notify::update;
use moetran_native::reply::{pass_on, refusal, require_data, PoprakoEnvelope};
use moetran_native::team::{get_user_teams, GetUserTeamsReq, ResTeam};
use moetran_native::text::{
    chars_contain, chars_last_index_of, i64_to_string, prefixed, str_chars, str_ends_with, str_eq,
    u64_to_string,
};
use moetran_native::token::{
    cached_moetran_token, cached_poprako_token, get_moetran_token, get_poprako_token,
    remove_moetran_token, remove_poprako_token, save_moetran_token, save_poprako_token,
    TokenCache,
};
use moetran_native::user::{get_user_info, sync_user, ResSync, ResUser};

fn envelope<T>(code: u16, data: Option<T>, message: Option<&str>) -> PoprakoEnvelope<T> {
    PoprakoEnvelope { code, data, message: message.map(|m| m.to_string()) }
}

#[test]
fn decimal_forms_are_those_of_the_standard_library() {
    for n in [0u64, 1, 9, 10, 11, 99, 100, 101, 12345, 9999999999, u64::MAX] {
        assert_eq!(u64_to_string(n), n.to_string());
    }
    for n in [0i64, 1, -1, 9, -9, 10, -10, 1700000000, -1700000000, i64::MAX, i64::MIN] {
        assert_eq!(i64_to_string(n), n.to_string());
    }
}

#[test]
fn text_searches_go_by_characters() {
    assert!(str_ends_with("a.png", ".png"));
    assert!(str_ends_with("a.png", ""));
    assert!(str_ends_with("", ""));
    assert!(!str_ends_with("png", ".png"));
    assert!(!str_ends_with("a.png ", ".png"));
    assert!(str_ends_with("页面.png", ".png"));
    assert!(str_ends_with("a.页", "页"));
    let has = |s: &str, pat: &str| chars_contain(&str_chars(s), &str_chars(pat));
    assert!(has("a.png?x", ".png?"));
    assert!(has("abc", ""));
    assert!(has("", ""));
    assert!(!has("", "a"));
    assert!(!has("a.pn.g?", ".png?"));
    assert!(has("aab", "ab"));
    assert!(has("页.png?页", "g?页"));
    assert_eq!(prefixed("a", "b"), "ab");
    assert_eq!(prefixed("", ""), "");
    assert!(str_eq("页", "页"));
    assert!(!str_eq("a", "A"));
    assert!(!str_eq("a", "ab"));
    assert_eq!(str_chars("a页b"), vec!['a', '页', 'b']);
    assert_eq!(chars_last_index_of(&str_chars("a.b.c"), '.'), Some(3));
    assert_eq!(chars_last_index_of(&str_chars("abc"), '.'), None);
    assert_eq!(chars_last_index_of(&str_chars(".abc"), '.'), Some(0));
    assert_eq!(chars_last_index_of(&str_chars(""), '.'), None);
}

#[test]
fn guard_warns_unless_told_of_success() {
    let mut guard = WarnDefer::new("captcha.request");
    assert!(guard.failed);
    assert_eq!(guard.content, "captcha.request");
    assert_eq!(guard.warning(), Some("captcha.request.interupted".to_string()));
    guard.success();
    assert!(!guard.failed);
    assert_eq!(guard.content, "captcha.request");
    assert_eq!(guard.warning(), None);
    guard.success();
    assert_eq!(guard.warning(), None);
    assert_eq!(WarnDefer::new("").warning(), Some(".interupted".to_string()));
}

#[test]
fn paths_must_be_relative() {
    let call = moetran_get("user/info", Some("t0k")).unwrap();
    assert_eq!(call.path, "user/info");
    assert_eq!(call.authorization, Some("Bearer t0k".to_string()));
    let call = poprako_get("projsets", None).unwrap();
    assert_eq!(call.path, "projsets");
    assert_eq!(call.authorization, None);
    let call = poprako_post_opt("a/b?c=d", Some("")).unwrap();
    assert_eq!(call.authorization, Some("Bearer ".to_string()));
    assert!(moetran_post_opt("x", None).is_ok());

    assert_eq!(moetran_get("", None).unwrap_err().message(), "Invalid path for moetran_get: ");
    assert_eq!(
        moetran_post_opt("/captchas", Some("t")).unwrap_err().message(),
        "Invalid path for moetran_post_opt: /captchas"
    );
    assert_eq!(
        poprako_get("/", None).unwrap_err().message(),
        "Invalid path for poprako_get: /"
    );
    assert_eq!(
        poprako_post_opt("", None).unwrap_err().message(),
        "Invalid path for poprako_post_opt: "
    );
    assert!(matches!(moetran_get("/x", None), Err(HttpError::InvalidPath { .. })));
}

#[test]
fn http_errors_have_their_messages() {
    let s = |t: &str| t.to_string();
    assert_eq!(
        HttpError::InvalidPath { caller: s("c"), path: s("/p") }.message(),
        "Invalid path for c: /p"
    );
    assert_eq!(
        HttpError::BuildUrl { path: s("p"), cause: s("bad") }.message(),
        "Failed to build URL for p: bad"
    );
    assert_eq!(
        HttpError::InvalidToken { cause: s("bad") }.message(),
        "Invalid token header value: bad"
    );
    assert_eq!(HttpError::Send { cause: s("down") }.message(), "request send error: down");
    assert_eq!(
        HttpError::Status { status: s("404 Not Found"), body: s("{}") }.message(),
        "http error: status 404 Not Found body: {}"
    );
    assert_eq!(
        HttpError::BodyRead { cause: s("cut") }.message(),
        "response body read error: cut"
    );
    assert_eq!(HttpError::Parse { cause: s("eof") }.message(), "json parse error: eof");
}

#[test]
fn blank_body_stands_for_null() {
    assert_eq!(read_response(true, "204 No Content", Ok(String::new())).unwrap(), "null");
    assert_eq!(read_response(true, "200 OK", Ok(" \n\t\r ".to_string())).unwrap(), "null");
    assert_eq!(read_response(true, "200 OK", Ok("\u{3000}\u{a0}".to_string())).unwrap(), "null");
    assert_eq!(read_response(true, "200 OK", Ok(" {} ".to_string())).unwrap(), " {} ");
    assert_eq!(read_response(true, "200 OK", Ok("null".to_string())).unwrap(), "null");
    assert_eq!(read_response(true, "200 OK", Ok("0".to_string())).unwrap(), "0");
    assert!(text_is_blank(""));
    assert!(text_is_blank(" \u{2003}"));
    assert!(!text_is_blank(" a "));
    assert!(!text_is_blank("\u{200b}"));
}

#[test]
fn white_space_is_what_the_standard_library_says() {
    let listed = |c: char| {
        let n = c as u32;
        (0x09..=0x0D).contains(&n)
            || n == 0x20
            || n == 0x85
            || n == 0xA0
            || n == 0x1680
            || (0x2000..=0x200A).contains(&n)
            || n == 0x2028
            || n == 0x2029
            || n == 0x202F
            || n == 0x205F
            || n == 0x3000
    };
    let mut buffer = [0u8; 4];
    for n in 0..=0x10FFFFu32 {
        if let Some(c) = char::from_u32(n) {
            assert_eq!(text_is_blank(c.encode_utf8(&mut buffer)), listed(c), "U+{:04X}", n);
        }
    }
}

#[test]
fn response_that_is_no_success_is_an_error() {
    assert_eq!(
        read_response(false, "500 Internal Server Error", Ok("oops".to_string()))
            .unwrap_err()
            .message(),
        "http error: status 500 Internal Server Error body: oops"
    );
    assert_eq!(
        read_response(false, "401 Unauthorized", Err("cut".to_string())).unwrap_err().message(),
        "http error: status 401 Unauthorized body: <body read error>"
    );
    assert_eq!(
        read_response(true, "200 OK", Err("cut".to_string())).unwrap_err().message(),
        "response body read error: cut"
    );
    assert_eq!(
        read_response(false, "404 Not Found", Ok(String::new())).unwrap_err().message(),
        "http error: status 404 Not Found body: "
    );
}

#[test]
fn envelope_is_accepted_by_its_code() {
    assert_eq!(envelope(201, Some(7), None).accept_data(201, "no", "none").unwrap(), 7);
    assert_eq!(
        envelope::<i32>(201, None, Some("m")).accept_data(201, "no", "none"),
        Err("none".to_string())
    );
    assert_eq!(
        envelope(200, Some(7), Some("m")).accept_data(201, "no", "none"),
        Err("m".to_string())
    );
    assert_eq!(envelope(0, Some(7), None).accept_data(201, "no", "none"), Err("no".to_string()));
    assert_eq!(refusal(Some("x".to_string()), "y"), "x");
    assert_eq!(refusal(None, "y"), "y");
    assert_eq!(require_data(Some(1), "gone"), Ok(1));
    assert_eq!(require_data::<i32>(None, "gone"), Err("gone".to_string()));
    assert_eq!(pass_on(Ok(1), "ctx: "), Ok(1));
    assert_eq!(pass_on::<i32>(Err("why".to_string()), "ctx: "), Err("ctx: why".to_string()));
}

#[test]
fn login_passes_the_answer_on() {
    assert_eq!(captcha_path(), "captchas");
    assert_eq!(token_path(), "user/token");
    let captcha = get_captcha(Ok(ResCaptcha { image: "i".to_string(), info: "n".to_string() }));
    let captcha = captcha.unwrap();
    assert_eq!(captcha.image, "i");
    assert_eq!(captcha.info, "n");
    assert_eq!(
        get_captcha(Err("down".to_string())).unwrap_err(),
        "Captcha request failed: down"
    );
    assert_eq!(aquire_token(Ok(ResToken { token: "t".to_string() })).unwrap().token, "t");
    assert_eq!(
        aquire_token(Err("denied".to_string())).unwrap_err(),
        "Token request failed: denied"
    );
}

#[test]
fn sync_accepts_two_codes() {
    let token = || Some(ResSync { token: "t".to_string() });
    assert_eq!(sync_user(Ok(envelope(200, token(), None))).unwrap().token, "t");
    assert_eq!(sync_user(Ok(envelope(201, token(), Some("made")))).unwrap().token, "t");
    assert_eq!(sync_user(Ok(envelope(202, token(), None))).unwrap_err(), "Poprako sync failed");
    assert_eq!(sync_user(Ok(envelope(400, token(), Some("bad mail")))).unwrap_err(), "bad mail");
    assert_eq!(
        sync_user(Ok(envelope(200, None, Some("m")))).unwrap_err(),
        "Poprako sync response missing data"
    );
    assert_eq!(
        sync_user(Err("down".to_string())).unwrap_err(),
        "Failed to sync user to Poprako: down"
    );
    let user = ResUser {
        id: "u".to_string(),
        name: "N".to_string(),
        has_avatar: true,
        avatar: "a".to_string(),
    };
    let got = get_user_info(Ok(user)).unwrap();
    assert_eq!(got.id, "u");
    assert!(got.has_avatar);
    assert_eq!(
        get_user_info(Err("down".to_string())).unwrap_err(),
        "Failed to get user info: down"
    );
}

#[test]
fn teams_are_asked_for_by_page() {
    assert_eq!(get_user_teams(&GetUserTeamsReq { page: 1, limit: 20 }), "user/teams?page=1&limit=20");
    assert_eq!(
        get_user_teams(&GetUserTeamsReq { page: 0, limit: u32::MAX }),
        "user/teams?page=0&limit=4294967295"
    );
    let team = ResTeam {
        id: "t".to_string(),
        avatar: "a".to_string(),
        has_avatar: false,
        name: "Team".to_string(),
    };
    let copy = team.duplicate();
    assert_eq!(copy.id, "t");
    assert_eq!(copy.avatar, "a");
    assert!(!copy.has_avatar);
    assert_eq!(copy.name, "Team");
}

#[test]
fn update_is_false_without_an_answer() {
    assert!(update(Ok(true)));
    assert!(!update(Ok(false)));
    assert!(!update(Err("down".to_string())));
}

fn raw_member(id: &str, principal: Option<bool>, last: Option<i64>) -> PoprakoMemberSearchRaw {
    PoprakoMemberSearchRaw {
        member_id: format!("m-{}", id),
        user_id: format!("u-{}", id),
        username: id.to_string(),
        is_admin: Some(true),
        is_translator: None,
        is_proofreader: Some(false),
        is_typesetter: None,
        is_redrawer: Some(true),
        is_principal: principal,
        last_active: last,
    }
}

#[test]
fn members_are_handed_on_in_order() {
    let raw = vec![raw_member("a", Some(true), Some(1700000000)), raw_member("b", None, None)];
    let found = get_members(Ok(envelope(200, Some(raw), None))).unwrap();
    assert_eq!(found.items.len(), 2);
    assert_eq!(found.items[0].member_id, "m-a");
    assert_eq!(found.items[0].user_id, "u-a");
    assert_eq!(found.items[0].username, "a");
    assert_eq!(found.items[0].is_admin, Some(true));
    assert_eq!(found.items[0].is_translator, None);
    assert_eq!(found.items[0].is_proofreader, Some(false));
    assert_eq!(found.items[0].is_redrawer, Some(true));
    assert_eq!(found.items[0].is_principal, Some(true));
    assert_eq!(found.items[0].last_active, Some(1700000000));
    assert_eq!(found.items[1].username, "b");
    assert_eq!(found.items[1].last_active, None);
    assert!(get_members(Ok(envelope(200, None, None))).unwrap().items.is_empty());
    assert_eq!(
        get_members(Ok(envelope(404, Some(vec![raw_member("a", None, None)]), None))).unwrap_err(),
        "Unknown error"
    );
    assert_eq!(get_members(Ok(envelope(500, None, Some("busy")))).unwrap_err(), "busy");
    assert_eq!(
        get_members(Err("down".to_string())).unwrap_err(),
        "Failed to fetch members: down"
    );
}

#[test]
fn active_members_are_handed_on_in_order() {
    let raw = |id: &str, last: Option<i64>| PoprakoActiveMemberRaw {
        member_id: id.to_string(),
        user_id: id.to_string(),
        username: id.to_string(),
        is_admin: None,
        is_translator: Some(true),
        is_proofreader: None,
        is_typesetter: Some(false),
        is_redrawer: None,
        is_principal: None,
        last_active: last,
    };
    let found =
        get_active_members(Ok(envelope(200, Some(vec![raw("x", Some(-5)), raw("y", None)]), None)))
            .unwrap();
    assert_eq!(found.len(), 2);
    assert_eq!(found[0].member_id, "x");
    assert_eq!(found[0].last_active, Some(-5));
    assert_eq!(found[0].is_translator, Some(true));
    assert_eq!(found[0].is_typesetter, Some(false));
    assert_eq!(found[1].member_id, "y");
    assert!(get_active_members(Ok(envelope(200, None, None))).unwrap().is_empty());
    assert_eq!(get_active_members(Ok(envelope(201, None, None))).unwrap_err(), "Unknown error");
    assert_eq!(
        get_active_members(Err("down".to_string())).unwrap_err(),
        "Failed to fetch active members: down"
    );
    let query = active_members_request(&GetActiveMembersReq {
        team_id: "t".to_string(),
        page: Some(2),
        limit: None,
    });
    assert_eq!(query, vec![pair("team_id", "t"), pair("page", "2")]);
    let query = active_members_request(&GetActiveMembersReq {
        team_id: "t".to_string(),
        page: None,
        limit: Some(50),
    });
    assert_eq!(query, vec![pair("team_id", "t"), pair("limit", "50")]);
}

#[test]
fn member_info_needs_code_and_data() {
    let info = || PoprakoMemberInfo {
        member_id: "m".to_string(),
        is_admin: true,
        is_translator: false,
        is_proofreader: false,
        is_typesetter: true,
        is_principal: false,
    };
    let got = get_member_info(Ok(envelope(200, Some(info()), None))).unwrap();
    assert_eq!(got.member_id, "m");
    assert!(got.is_admin && got.is_typesetter && !got.is_principal);
    assert_eq!(
        get_member_info(Ok(envelope(200, None, None))).unwrap_err(),
        "PopRaKo member info response missing data"
    );
    assert_eq!(get_member_info(Ok(envelope(403, Some(info()), None))).unwrap_err(), "Unknown error");
    assert_eq!(
        get_member_info(Ok(envelope(403, Some(info()), Some("no")))).unwrap_err(),
        "no"
    );
    assert_eq!(
        get_member_info(Err("down".to_string())).unwrap_err(),
        "Failed to fetch member info: down"
    );
}

#[test]
fn token_in_memory_spares_the_database() {
    let mut cache = TokenCache::new();
    assert_eq!(cached_moetran_token(&cache), None);
    assert_eq!(cached_poprako_token(&cache), None);
    assert_eq!(get_moetran_token(&mut cache, Err("no row".to_string())), Ok(None));
    assert_eq!(cached_moetran_token(&cache), None);
    assert_eq!(get_moetran_token(&mut cache, Ok("db".to_string())), Ok(Some("db".to_string())));
    assert_eq!(cached_moetran_token(&cache), Some("db".to_string()));
    assert_eq!(get_moetran_token(&mut cache, Ok("other".to_string())), Ok(Some("db".to_string())));
    assert_eq!(get_moetran_token(&mut cache, Err("down".to_string())), Ok(Some("db".to_string())));
    assert_eq!(cached_poprako_token(&cache), None);
    assert_eq!(get_poprako_token(&mut cache, Ok("pp".to_string())), Ok(Some("pp".to_string())));
    assert_eq!(cached_poprako_token(&cache), Some("pp".to_string()));
    assert_eq!(cached_moetran_token(&cache), Some("db".to_string()));
}

#[test]
fn token_changes_follow_the_database() {
    let mut cache = TokenCache::new();
    assert_eq!(
        save_moetran_token(&mut cache, "a".to_string(), Err("full".to_string())),
        Err("full".to_string())
    );
    assert_eq!(cached_moetran_token(&cache), None);
    assert_eq!(save_moetran_token(&mut cache, "a".to_string(), Ok(())), Ok(()));
    assert_eq!(cached_moetran_token(&cache), Some("a".to_string()));
    assert_eq!(save_moetran_token(&mut cache, "b".to_string(), Ok(())), Ok(()));
    assert_eq!(cached_moetran_token(&cache), Some("b".to_string()));
    assert_eq!(remove_moetran_token(&mut cache, Err("locked".to_string())), Err("locked".to_string()));
    assert_eq!(cached_moetran_token(&cache), Some("b".to_string()));
    assert_eq!(remove_moetran_token(&mut cache, Ok(())), Ok(()));
    assert_eq!(cached_moetran_token(&cache), None);

    assert_eq!(save_poprako_token(&mut cache, "p".to_string(), Ok(())), Ok(()));
    assert_eq!(cached_poprako_token(&cache), Some("p".to_string()));
    assert_eq!(cached_moetran_token(&cache), None);
    assert_eq!(
        save_poprako_token(&mut cache, "q".to_string(), Err("full".to_string())),
        Err("full".to_string())
    );
    assert_eq!(cached_poprako_token(&cache), Some("p".to_string()));
    assert_eq!(remove_poprako_token(&mut cache, Err("x".to_string())), Err("x".to_string()));
    assert_eq!(cached_poprako_token(&cache), Some("p".to_string()));
    assert_eq!(remove_poprako_token(&mut cache, Ok(())), Ok(()));
    assert_eq!(cached_poprako_token(&cache), None);
}
