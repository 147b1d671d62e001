use moetran_native::http::pair;
use moetran_native::project::enriched::{
    enrich, enrichment_request, get_team_projects_enriched, get_user_projects_enriched,
    principals, search_hits, search_team_projects_enriched, search_user_projects_enriched, Lookup,
};
use moetran_native::project::files::{
    get_project_files, get_project_targets, project_files_request, project_targets_request,
    RawProjectFile, RawProjectTarget,
};
use moetran_native::project::image::{
    check_proxy_host, check_proxy_response, check_upload_type, proxy_image, proxy_image_target,
    upload_extension, upload_project_file, upload_result, ResponseHead, MAX_PROXY_BYTES,
};
use moetran_native::project::requests::{
    assign_member_request, assign_member_to_proj, assignments_request, create_poprako_projset,
    create_proj, create_proj_request, create_projset, create_projset_request, create_source,
    create_source_path, delete_source, delete_source_path, get_assignments, get_page_sources,
    get_team_poprako_projsets, lookup_request, page_sources_request, path,
    projects_page_request, publish_proj, publish_proj_path, submit_translation,
    submit_translation_request, team_projects_listed, team_projects_path, team_projsets_request,
    update_proj_status, update_proj_status_request, update_source, update_source_request,
    update_translation, update_translation_request, user_projects_listed,
};
use moetran_native::project::{
    AssignMemberReq, CreateProjReq, CreateProjsetReq, GetAssignmentsReq, GetPageSourcesReq,
    GetProjectFilesReq, GetProjectTargetsReq, GetTeamPoprakoProjsetsReq, MoetranTranslation,
    PoprakoAssignment, PoprakoEnvelope, PoprakoMember, PoprakoProjCreateData,
    PoprakoProjFilterReq, PoprakoProjInfo, PoprakoProjSetCreateData, PoprakoProjSetInfo,
    PoprakoProjSetListData, ResProject, ResProjectSet, SubmitTranslationReq,
    UpdateProjStatusReq, UpdateSourceReq, UpdateTranslationReq, UploadProjectFileReq,
};
use moetran_native::team::ResTeam;

fn envelope<T>(code: u16, data: Option<T>, message: Option<&str>) -> PoprakoEnvelope<T> {
    PoprakoEnvelope { code, data, message: message.map(|m| m.to_string()) }
}

fn base(id: &str, role: Option<serde_json::Value>) -> ResProject {
    ResProject {
        id: id.to_string(),
        name: format!("name of {}", id),
        source_count: 10,
        translated_source_count: 7,
        checked_source_count: 3,
        team: ResTeam {
            id: "team".to_string(),
            avatar: "av".to_string(),
            has_avatar: true,
            name: "Team".to_string(),
        },
        project_set: ResProjectSet { id: "set".to_string(), name: "Set".to_string() },
        role,
    }
}

fn member(id: &str, principal: bool) -> PoprakoMember {
    PoprakoMember {
        user_id: format!("u-{}", id),
        member_id: format!("m-{}", id),
        username: id.to_string(),
        is_admin: false,
        is_translator: true,
        is_proofreader: false,
        is_typesetter: false,
        is_principal: principal,
    }
}

fn info(id: &str, index: u32, members: Option<Vec<PoprakoMember>>) -> PoprakoProjInfo {
    PoprakoProjInfo {
        proj_id: id.to_string(),
        proj_name: format!("name of {}", id),
        projset_index: index,
        translating_status: 2,
        proofreading_status: 1,
        typesetting_status: 0,
        reviewing_status: -1,
        is_published: index % 2 == 0,
        members,
    }
}

#[test]
fn principals_are_picked_in_order() {
    let members = vec![member("a", true), member("b", false), member("c", true)];
    assert_eq!(principals(&members), vec!["u-a".to_string(), "u-c".to_string()]);
    assert!(principals(&Vec::new()).is_empty());
    assert!(principals(&vec![member("b", false)]).is_empty());
}

#[test]
fn project_known_to_the_workflow_service_is_enriched() {
    let extra = info("p", 4, Some(vec![member("a", false), member("b", true)]));
    let project = enrich(base("p", Some(serde_json::Value::from("owner"))), Some(&extra));
    assert_eq!(project.id, "p");
    assert_eq!(project.name, "name of p");
    assert_eq!(project.source_count, 10);
    assert_eq!(project.translated_source_count, 7);
    assert_eq!(project.checked_source_count, 3);
    assert_eq!(project.team.id, "team");
    assert_eq!(project.project_set.name, "Set");
    assert!(project.has_poprako);
    assert_eq!(project.projset_index, Some(4));
    assert_eq!(project.translating_status, Some(2));
    assert_eq!(project.proofreading_status, Some(1));
    assert_eq!(project.typesetting_status, Some(0));
    assert_eq!(project.reviewing_status, Some(-1));
    assert_eq!(project.is_published, Some(true));
    let members = project.members.unwrap();
    assert_eq!(members.len(), 2);
    assert_eq!(members[1].user_id, "u-b");
    assert!(members[1].is_principal);
    assert_eq!(project.principals, Some(vec!["u-b".to_string()]));
    assert_eq!(project.role, Some(serde_json::Value::from("owner")));
}

#[test]
fn project_unknown_to_the_workflow_service_stays_plain() {
    let project = enrich(base("p", None), None);
    assert_eq!(project.id, "p");
    assert!(!project.has_poprako);
    assert_eq!(project.projset_index, None);
    assert_eq!(project.translating_status, None);
    assert_eq!(project.proofreading_status, None);
    assert_eq!(project.typesetting_status, None);
    assert_eq!(project.reviewing_status, None);
    assert_eq!(project.is_published, None);
    assert!(project.members.is_none());
    assert_eq!(project.principals, None);
    assert_eq!(project.role, None);
    let without_members = enrich(base("p", None), Some(&info("p", 1, None)));
    assert!(without_members.has_poprako);
    assert!(without_members.members.is_none());
    assert_eq!(without_members.principals, None);
    assert_eq!(without_members.is_published, Some(false));
}

#[test]
fn listing_is_enriched_project_by_project() {
    let list = vec![base("a", None), base("b", None), base("c", None), base("a", None)];
    let infos = vec![info("c", 1, None), info("a", 2, None), info("x", 3, None), info("a", 5, None)];
    let enriched = get_user_projects_enriched(list, Ok(envelope(200, Some(infos), None))).unwrap();
    assert_eq!(enriched.len(), 4);
    assert_eq!(enriched[0].id, "a");
    assert_eq!(enriched[0].projset_index, Some(5));
    assert_eq!(enriched[1].id, "b");
    assert!(!enriched[1].has_poprako);
    assert_eq!(enriched[2].id, "c");
    assert_eq!(enriched[2].projset_index, Some(1));
    assert_eq!(enriched[3].id, "a");
    assert_eq!(enriched[3].projset_index, Some(5));
}

#[test]
fn listing_goes_on_without_the_workflow_service() {
    let refused = envelope(500, Some(vec![info("a", 1, None)]), Some("busy"));
    let enriched = get_team_projects_enriched(vec![base("a", None)], Ok(refused)).unwrap();
    assert_eq!(enriched.len(), 1);
    assert!(!enriched[0].has_poprako);
    let no_data = get_team_projects_enriched(vec![base("a", None)], Ok(envelope(200, None, None)));
    assert!(!no_data.unwrap()[0].has_poprako);
    assert_eq!(
        get_user_projects_enriched(vec![base("a", None)], Err("down".to_string())).unwrap_err(),
        "获取 PopRaKo 项目详情失败: down"
    );
    assert_eq!(
        get_team_projects_enriched(vec![base("a", None)], Err("down".to_string())).unwrap_err(),
        "获取 PopRaKo 项目详情失败: down"
    );
    assert!(get_user_projects_enriched(Vec::new(), Err("down".to_string())).unwrap().is_empty());
    assert!(get_team_projects_enriched(Vec::new(), Ok(envelope(200, None, None)))
        .unwrap()
        .is_empty());
}

#[test]
fn enrichment_asks_for_the_listed_ids() {
    assert!(enrichment_request(&Vec::new(), 1, 10).is_none());
    let request = enrichment_request(&vec![base("a", None), base("b", None)], 3, 25).unwrap();
    assert_eq!(request.proj_ids, vec!["a".to_string(), "b".to_string()]);
    assert_eq!(request.page, 3);
    assert_eq!(request.limit, 25);
    assert_eq!(projects_page_request(3, 25), vec![pair("page", "3"), pair("limit", "25"), pair("status", "0")]);
    assert_eq!(team_projects_path("t1"), "teams/t1/projects");
    assert_eq!(user_projects_listed(Err("x".to_string())).unwrap_err(), "获取用户项目列表失败: x");
    assert_eq!(team_projects_listed(Err("x".to_string())).unwrap_err(), "获取团队项目列表失败: x");
    assert_eq!(user_projects_listed(Ok(vec![base("a", None)])).unwrap().len(), 1);
    assert_eq!(team_projects_listed(Ok(Vec::new())).unwrap().len(), 0);
}

#[test]
fn search_answer_gives_the_hits() {
    let hits = search_hits(Ok(envelope(200, Some(vec![info("a", 1, None)]), None))).unwrap();
    assert_eq!(hits.len(), 1);
    assert_eq!(hits[0].proj_id, "a");
    assert!(search_hits(Ok(envelope(200, None, None))).unwrap().is_empty());
    assert_eq!(search_hits(Ok(envelope(404, None, None))).unwrap_err(), "PopRaKo 项目搜索失败");
    assert_eq!(search_hits(Ok(envelope(404, None, Some("nope")))).unwrap_err(), "nope");
    assert_eq!(search_hits(Err("down".to_string())).unwrap_err(), "PopRaKo 项目搜索失败: down");
    assert_eq!(
        lookup_request(&info("a", 1, None)),
        vec![pair("word", "name of a"), pair("status", "0")]
    );
}

#[test]
fn search_joins_hits_with_what_is_listed() {
    let hits = vec![info("a", 1, None), info("b", 2, None), info("c", 3, Some(vec![member("m", true)]))];
    let lookups = vec![
        Lookup { found: Ok(Some(base("A", None))) },
        Lookup { found: Ok(None) },
        Lookup { found: Ok(Some(base("C", None))) },
    ];
    let found = search_user_projects_enriched(hits, lookups).unwrap();
    assert_eq!(found.len(), 2);
    assert_eq!(found[0].id, "A");
    assert_eq!(found[0].projset_index, Some(1));
    assert!(found[0].has_poprako);
    assert_eq!(found[1].id, "C");
    assert_eq!(found[1].projset_index, Some(3));
    assert_eq!(found[1].principals, Some(vec!["u-m".to_string()]));
    assert!(search_team_projects_enriched(Vec::new(), Vec::new()).unwrap().is_empty());
}

#[test]
fn search_fails_with_the_first_failed_lookup() {
    let hits = || vec![info("a", 1, None), info("b", 2, None), info("c", 3, None)];
    let lookups = || {
        vec![
            Lookup { found: Ok(Some(base("A", None))) },
            Lookup { found: Err("first".to_string()) },
            Lookup { found: Err("second".to_string()) },
        ]
    };
    assert_eq!(
        search_user_projects_enriched(hits(), lookups()).unwrap_err(),
        "获取用户项目列表失败: first"
    );
    assert_eq!(
        search_team_projects_enriched(hits(), lookups()).unwrap_err(),
        "获取团队项目列表失败: first"
    );
}

#[test]
fn search_counts_hits_and_lookups_in_pairs() {
    let hits = || vec![info("a", 1, None), info("b", 2, None), info("c", 3, None)];
    let stopped = vec![
        Lookup { found: Ok(Some(base("A", None))) },
        Lookup { found: Err("cut".to_string()) },
    ];
    assert_eq!(
        search_user_projects_enriched(hits(), stopped).unwrap_err(),
        "获取用户项目列表失败: cut"
    );
    let short = vec![Lookup { found: Ok(Some(base("A", None))) }];
    let found = search_team_projects_enriched(hits(), short).unwrap();
    assert_eq!(found.len(), 1);
    assert_eq!(found[0].projset_index, Some(1));
    let long = vec![
        Lookup { found: Ok(Some(base("A", None))) },
        Lookup { found: Err("beyond".to_string()) },
    ];
    let found = search_user_projects_enriched(vec![info("a", 1, None)], long).unwrap();
    assert_eq!(found.len(), 1);
    assert!(search_user_projects_enriched(Vec::new(), vec![Lookup { found: Err("x".to_string()) }])
        .unwrap()
        .is_empty());
}

#[test]
fn targets_without_an_id_are_left_out() {
    let entries = vec![
        RawProjectTarget {
            id: Some("t1".to_string()),
            translated_source_count: Some(5),
            checked_source_count: None,
        },
        RawProjectTarget { id: None, translated_source_count: Some(1), checked_source_count: Some(1) },
        RawProjectTarget { id: Some("t2".to_string()), translated_source_count: None, checked_source_count: Some(9) },
    ];
    let targets = get_project_targets(Ok(entries)).unwrap();
    assert_eq!(targets.len(), 2);
    assert_eq!(targets[0].id, "t1");
    assert_eq!(targets[0].translated_source_count, 5);
    assert_eq!(targets[0].checked_source_count, 0);
    assert_eq!(targets[1].id, "t2");
    assert_eq!(targets[1].translated_source_count, 0);
    assert_eq!(targets[1].checked_source_count, 9);
    assert!(get_project_targets(Ok(Vec::new())).unwrap().is_empty());
    assert_eq!(
        get_project_targets(Err("down".to_string())).unwrap_err(),
        "获取项目 targets 失败: down"
    );
    let request = project_targets_request(&GetProjectTargetsReq { project_id: "p9".to_string() });
    assert_eq!(request.path, "projects/p9/targets");
    assert_eq!(
        request.query,
        vec![pair("page", "1"), pair("limit", "5"), pair("word", ""), pair("status", "0")]
    );
}

#[test]
fn files_need_id_name_and_address() {
    let file = |id: Option<&str>, name: Option<&str>, url: Option<&str>, count: Option<u64>| {
        RawProjectFile {
            id: id.map(|t| t.to_string()),
            name: name.map(|t| t.to_string()),
            source_count: count,
            url: url.map(|t| t.to_string()),
        }
    };
    let entries = vec![
        file(Some("1"), Some("a.png"), Some("u1"), Some(3)),
        file(None, Some("b.png"), Some("u2"), Some(3)),
        file(Some("3"), None, Some("u3"), Some(3)),
        file(Some("4"), Some("d.png"), None, Some(3)),
        file(Some("5"), Some("e.png"), Some("u5"), None),
    ];
    let files = get_project_files(Ok(entries)).unwrap();
    assert_eq!(files.len(), 2);
    assert_eq!(files[0].id, "1");
    assert_eq!(files[0].name, "a.png");
    assert_eq!(files[0].url, "u1");
    assert_eq!(files[0].source_count, 3);
    assert_eq!(files[1].id, "5");
    assert_eq!(files[1].source_count, 0);
    assert_eq!(get_project_files(Err("down".to_string())).unwrap_err(), "获取项目 files 失败: down");
    let request = project_files_request(&GetProjectFilesReq {
        project_id: "p9".to_string(),
        target_id: Some("zh".to_string()),
    });
    assert_eq!(request.path, "projects/p9/files");
    assert_eq!(
        request.query,
        vec![
            pair("page", "1"),
            pair("limit", "100000"),
            pair("word", ""),
            pair("target", "zh"),
            pair("status", "0")
        ]
    );
    let request =
        project_files_request(&GetProjectFilesReq { project_id: "p".to_string(), target_id: None });
    assert_eq!(
        request.query,
        vec![pair("page", "1"), pair("limit", "100000"), pair("word", ""), pair("status", "0")]
    );
}

#[test]
fn image_host_must_end_in_the_allowed_domain() {
    assert!(proxy_image_target("https://a.m-t.pics/x.png").is_ok());
    assert!(proxy_image_target("https://m-t.pics/x.png").is_ok());
    assert!(proxy_image_target("http://IMG.M-T.PICS/x.png").is_ok());
    assert!(proxy_image_target("https://evilm-t.pics/x.png").is_ok());
    assert_eq!(
        proxy_image_target("https://m-t.pics.evil.example/x.png").unwrap_err(),
        "Host not allowed"
    );
    assert_eq!(proxy_image_target("https://example.com/m-t.pics").unwrap_err(), "Host not allowed");
    assert_eq!(proxy_image_target("data:text/plain,m-t.pics").unwrap_err(), "URL missing host");
    assert_eq!(
        proxy_image_target("not a url").unwrap_err(),
        "Invalid URL: relative URL without a base"
    );
    assert_eq!(proxy_image_target("").unwrap_err(), "Invalid URL: relative URL without a base");
    assert_eq!(proxy_image_target("https://").unwrap_err(), "Invalid URL: empty host");
}

#[test]
fn image_host_check_takes_what_the_parse_gave() {
    assert!(check_proxy_host(Ok(Some("cdn.m-t.pics".to_string()))).is_ok());
    assert_eq!(check_proxy_host(Ok(Some("m-t.pic".to_string()))).unwrap_err(), "Host not allowed");
    assert_eq!(check_proxy_host(Ok(Some(String::new()))).unwrap_err(), "Host not allowed");
    assert_eq!(check_proxy_host(Ok(None)).unwrap_err(), "URL missing host");
    assert_eq!(check_proxy_host(Err("why".to_string())).unwrap_err(), "Invalid URL: why");
}

#[test]
fn image_response_is_checked_before_the_body() {
    let head = |success: bool, length: Option<u64>| ResponseHead {
        success,
        status: "404 Not Found".to_string(),
        content_length: length,
        content_type: None,
    };
    assert!(check_proxy_response(&Ok(head(true, None))).is_ok());
    assert!(check_proxy_response(&Ok(head(true, Some(0)))).is_ok());
    assert!(check_proxy_response(&Ok(head(true, Some(MAX_PROXY_BYTES)))).is_ok());
    assert_eq!(
        check_proxy_response(&Ok(head(true, Some(MAX_PROXY_BYTES + 1)))).unwrap_err(),
        "Remote file too large"
    );
    assert_eq!(
        check_proxy_response(&Ok(head(false, Some(1)))).unwrap_err(),
        "Remote returned status 404 Not Found"
    );
    assert_eq!(
        check_proxy_response(&Err("down".to_string())).unwrap_err(),
        "Fetch failed: down"
    );
    assert_eq!(MAX_PROXY_BYTES, 32 * 1024 * 1024);
}

#[test]
fn image_is_handed_on_in_base64() {
    let image = proxy_image(Some("image/png".to_string()), Ok(b"hello".to_vec())).unwrap();
    assert_eq!(image.b64, "aGVsbG8=");
    assert_eq!(image.content_type, "image/png");
    let image = proxy_image(None, Ok(Vec::new())).unwrap();
    assert_eq!(image.b64, "");
    assert_eq!(image.content_type, "application/octet-stream");
    assert_eq!(proxy_image(None, Err("cut".to_string())).unwrap_err(), "Read body failed: cut");
    let large = vec![0u8; MAX_PROXY_BYTES as usize + 1];
    assert_eq!(proxy_image(None, Ok(large)).unwrap_err(), "Remote file too large");
}

#[test]
fn upload_type_goes_by_the_lower_case_extension() {
    assert_eq!(upload_extension("page.PNG"), "png");
    assert_eq!(upload_extension("a.b.JpEg"), "jpeg");
    assert_eq!(upload_extension("noext"), "noext");
    assert_eq!(upload_extension("JPG"), "jpg");
    assert_eq!(upload_extension("x."), "");
    assert_eq!(upload_extension("x.ÄB"), "äb");
    assert!(check_upload_type("jpg").is_ok());
    assert!(check_upload_type("jpeg").is_ok());
    assert!(check_upload_type("png").is_ok());
    assert!(check_upload_type("bmp").is_ok());
    assert_eq!(
        check_upload_type("webp").unwrap_err(),
        "Unsupported file type: webp. Only jpg/jpeg/png/bmp are allowed"
    );
    assert_eq!(
        check_upload_type("").unwrap_err(),
        "Unsupported file type: . Only jpg/jpeg/png/bmp are allowed"
    );
    assert!(check_upload_type("PNG").is_err());
}

#[test]
fn upload_needs_type_then_token() {
    let payload = |name: &str| UploadProjectFileReq {
        project_id: "p7".to_string(),
        file_name: name.to_string(),
        file_bytes: vec![1, 2, 3],
    };
    let call =
        upload_project_file(&payload("a.PNG"), Ok(Some("tok".to_string())), "https://api.moetran.com")
            .unwrap();
    assert_eq!(call.url, "https://api.moetran.com/v1/projects/p7/files");
    assert_eq!(call.authorization, "Bearer tok");
    assert_eq!(
        upload_project_file(&payload("a.gif"), Ok(None), "b").unwrap_err(),
        "Unsupported file type: gif. Only jpg/jpeg/png/bmp are allowed"
    );
    assert_eq!(
        upload_project_file(&payload("a.bmp"), Ok(None), "b").unwrap_err(),
        "Missing Moetran token: Authorization required"
    );
    assert_eq!(
        upload_project_file(&payload("jpg"), Err("locked".to_string()), "b").unwrap_err(),
        "Failed to get Moetran token: locked"
    );
    assert!(upload_result(Ok((true, "200 OK".to_string(), Ok(String::new())))).is_ok());
    assert_eq!(
        upload_result(Ok((false, "413 Payload Too Large".to_string(), Ok("big".to_string()))))
            .unwrap_err(),
        "File upload failed with status 413 Payload Too Large: big"
    );
    assert_eq!(
        upload_result(Ok((false, "500".to_string(), Err("cut".to_string())))).unwrap_err(),
        "File upload failed with status 500: <empty>"
    );
    assert_eq!(upload_result(Err("down".to_string())).unwrap_err(), "File upload failed: down");
}

#[test]
fn project_set_requests_and_answers() {
    let call = create_projset_request(CreateProjsetReq {
        projset_name: "n".to_string(),
        projset_description: "d".to_string(),
        team_id: "t".to_string(),
        mtr_token: "k".to_string(),
    });
    assert_eq!(call.path, "projsets");
    assert_eq!(call.body.projset_name, "n");
    assert_eq!(call.body.projset_description, "d");
    assert_eq!(call.body.team_id, "t");
    assert_eq!(call.body.mtr_token, "k");
    let data = || Some(PoprakoProjSetCreateData { projset_serial: 12 });
    assert_eq!(create_projset(Ok(envelope(201, data(), None))).unwrap().projset_serial, 12);
    assert_eq!(create_poprako_projset(Ok(envelope(201, data(), None))).unwrap().projset_serial, 12);
    assert_eq!(create_projset(Ok(envelope(200, data(), None))).unwrap_err(), "PopRaKo 创建项目集失败");
    assert_eq!(create_projset(Ok(envelope(409, None, Some("taken")))).unwrap_err(), "taken");
    assert_eq!(create_projset(Ok(envelope(201, None, None))).unwrap_err(), "PopRaKo 创建项目集返回空数据");
    assert_eq!(create_projset(Err("down".to_string())).unwrap_err(), "创建项目集失败: down");
    assert_eq!(create_poprako_projset(Err("down".to_string())).unwrap_err(), "创建项目集失败: down");

    assert_eq!(
        team_projsets_request(&GetTeamPoprakoProjsetsReq { team_id: "t".to_string() }),
        vec![pair("team_id", "t")]
    );
    let sets = PoprakoProjSetListData {
        projsets: vec![PoprakoProjSetInfo {
            projset_id: "s".to_string(),
            projset_name: "S".to_string(),
            projset_description: None,
            projset_serial: 1,
            team_id: "t".to_string(),
        }],
    };
    let listed = get_team_poprako_projsets(Ok(envelope(200, Some(sets), None))).unwrap();
    assert_eq!(listed.len(), 1);
    assert_eq!(listed[0].projset_id, "s");
    assert_eq!(
        get_team_poprako_projsets(Ok(envelope(200, None, None))).unwrap_err(),
        "PopRaKo 获取项目集列表返回空数据"
    );
    assert_eq!(
        get_team_poprako_projsets(Ok(envelope(201, None, None))).unwrap_err(),
        "PopRaKo 获取项目集列表失败"
    );
    assert_eq!(
        get_team_poprako_projsets(Err("down".to_string())).unwrap_err(),
        "获取 PopRaKo 项目集列表失败: down"
    );
}

#[test]
fn project_requests_and_answers() {
    let call = create_proj_request(CreateProjReq {
        proj_name: "n".to_string(),
        proj_description: "d".to_string(),
        team_id: "t".to_string(),
        projset_id: "s".to_string(),
        mtr_auth: "k".to_string(),
        workset_index: 3,
        source_language: "ja".to_string(),
        target_languages: vec!["zh".to_string(), "en".to_string()],
        allow_apply_type: 1,
        application_check_type: 2,
        default_role: "r".to_string(),
    });
    assert_eq!(call.path, "projs");
    assert_eq!(call.body.proj_name, "n");
    assert_eq!(call.body.proj_description, "d");
    assert_eq!(call.body.team_id, "t");
    assert_eq!(call.body.projset_id, "s");
    assert_eq!(call.body.mtr_auth, "k");
    assert_eq!(call.body.workset_index, 3);
    assert_eq!(call.body.source_language, "ja");
    assert_eq!(call.body.target_languages, vec!["zh".to_string(), "en".to_string()]);
    assert_eq!(call.body.allow_apply_type, 1);
    assert_eq!(call.body.application_check_type, 2);
    assert_eq!(call.body.default_role, "r");
    let data = || {
        Some(PoprakoProjCreateData { proj_id: "p".to_string(), proj_serial: 1, projset_index: 2 })
    };
    assert_eq!(create_proj(Ok(envelope(201, data(), None))).unwrap().proj_id, "p");
    assert_eq!(create_proj(Ok(envelope(200, data(), None))).unwrap_err(), "PopRaKo 创建项目失败");
    assert_eq!(create_proj(Ok(envelope(201, None, None))).unwrap_err(), "PopRaKo 创建项目返回空数据");
    assert_eq!(create_proj(Err("down".to_string())).unwrap_err(), "创建项目失败: down");

    let assign = || AssignMemberReq {
        proj_id: "p".to_string(),
        member_id: "m".to_string(),
        is_translator: true,
        is_proofreader: false,
        is_typesetter: true,
    };
    let call = assign_member_request(assign(), Ok(Some("tok".to_string()))).unwrap();
    assert_eq!(call.path, "projs/p/assign");
    assert_eq!(call.body.proj_id, "p");
    assert_eq!(call.body.member_id, "m");
    assert_eq!(call.body.mtr_auth, "tok");
    assert!(call.body.is_translator && !call.body.is_proofreader && call.body.is_typesetter);
    assert_eq!(assign_member_request(assign(), Ok(None)).unwrap_err(), "无法获取 Moetran Token");
    assert_eq!(assign_member_request(assign(), Err("locked".to_string())).unwrap_err(), "locked");
    assert!(assign_member_to_proj(Ok(())).is_ok());
    assert_eq!(assign_member_to_proj(Err("no".to_string())).unwrap_err(), "指派成员到项目失败: no");

    let call = update_proj_status_request(UpdateProjStatusReq {
        proj_id: "p".to_string(),
        status_type: "typesetting".to_string(),
        new_status: 2,
    });
    assert_eq!(call.path, "projs/p/status");
    assert_eq!(call.body.proj_id, "p");
    assert_eq!(call.body.status_type, "typesetting");
    assert_eq!(call.body.new_status, 2);
    assert!(update_proj_status(Ok(())).is_ok());
    assert_eq!(update_proj_status(Err("no".to_string())).unwrap_err(), "更新项目状态失败: no");
    assert_eq!(publish_proj_path("p"), "projs/p/publish");
    assert!(publish_proj(Ok(())).is_ok());
    assert_eq!(publish_proj(Err("no".to_string())).unwrap_err(), "标记项目为已发布失败: no");
}

#[test]
fn source_and_translation_requests_and_answers() {
    let request = page_sources_request(&GetPageSourcesReq {
        file_id: "f".to_string(),
        target_id: "zh".to_string(),
    });
    assert_eq!(request.path, "files/f/sources");
    assert_eq!(request.query, vec![pair("target_id", "zh"), pair("paging", "false")]);
    assert_eq!(get_page_sources(Ok(vec![1, 2])).unwrap(), vec![1, 2]);
    assert_eq!(get_page_sources::<i32>(Err("no".to_string())).unwrap_err(), "获取页面源失败: no");
    assert_eq!(create_source_path("f"), "files/f/sources");
    assert_eq!(create_source(Ok(5)).unwrap(), 5);
    assert_eq!(create_source::<i32>(Err("no".to_string())).unwrap_err(), "创建 source 失败: no");
    let call = update_source_request(&UpdateSourceReq { source_id: "s".to_string(), position_type: 1 });
    assert_eq!(call.path, "sources/s");
    assert_eq!(call.body.id, "s");
    assert_eq!(call.body.position_type, 1);
    assert_eq!(update_source(Ok(5)).unwrap(), 5);
    assert_eq!(update_source::<i32>(Err("no".to_string())).unwrap_err(), "更新 source 失败: no");
    assert_eq!(delete_source_path("s"), "sources/s");
    assert!(delete_source(Ok(())).is_ok());
    assert_eq!(delete_source(Err("no".to_string())).unwrap_err(), "删除 source 失败: no");
    assert_eq!(path("a/", "b", "/c"), "a/b/c");

    let call = submit_translation_request(SubmitTranslationReq {
        source_id: "s".to_string(),
        target_id: "zh".to_string(),
        content: "text".to_string(),
    });
    assert_eq!(call.path, "sources/s/translations");
    assert_eq!(call.body.target_id, "zh");
    assert_eq!(call.body.content, "text");
    let translation = || MoetranTranslation {
        id: "t".to_string(),
        content: "c".to_string(),
        proofread_content: None,
        selected: true,
    };
    assert_eq!(submit_translation(Ok(translation())).unwrap().id, "t");
    assert_eq!(submit_translation(Err("no".to_string())).unwrap_err(), "提交翻译失败: no");
    assert!(update_translation(Ok(translation())).unwrap().selected);
    assert_eq!(update_translation(Err("no".to_string())).unwrap_err(), "更新翻译失败: no");
}

#[test]
fn translation_update_must_change_something() {
    let payload = |selected: Option<bool>, proof: Option<&str>, content: Option<&str>| {
        UpdateTranslationReq {
            translation_id: "t".to_string(),
            selected,
            proofread_content: proof.map(|p| p.to_string()),
            content: content.map(|c| c.to_string()),
        }
    };
    assert_eq!(
        update_translation_request(payload(None, None, None)).unwrap_err(),
        "至少需要一个可更新字段"
    );
    let call = update_translation_request(payload(Some(false), None, None)).unwrap();
    assert_eq!(call.path, "translations/t");
    assert_eq!(call.body.selected, Some(false));
    assert_eq!(call.body.proofread_content, None);
    assert_eq!(call.body.content, None);
    let call = update_translation_request(payload(None, Some(""), None)).unwrap();
    assert_eq!(call.body.proofread_content, Some(String::new()));
    let call = update_translation_request(payload(None, None, Some("c"))).unwrap();
    assert_eq!(call.body.content, Some("c".to_string()));
    let call = update_translation_request(payload(Some(true), Some("p"), Some("c"))).unwrap();
    assert_eq!(call.body.selected, Some(true));
    assert_eq!(call.body.proofread_content, Some("p".to_string()));
    assert_eq!(call.body.content, Some("c".to_string()));
}

#[test]
fn assignments_are_asked_for_since_a_time() {
    assert_eq!(assignments_request(&GetAssignmentsReq { time_start: 0 }), vec![pair("time_start", "0")]);
    assert_eq!(
        assignments_request(&GetAssignmentsReq { time_start: -42 }),
        vec![pair("time_start", "-42")]
    );
    assert_eq!(
        assignments_request(&GetAssignmentsReq { time_start: 1700000000 }),
        vec![pair("time_start", "1700000000")]
    );
    let work = || {
        Some(vec![PoprakoAssignment {
            proj_id: "p".to_string(),
            proj_name: "P".to_string(),
            projset_serial: 1,
            projset_index: 2,
            member_id: "m".to_string(),
            username: "u".to_string(),
            is_translator: true,
            is_proofreader: false,
            is_typesetter: false,
            updated_at: 5,
        }])
    };
    assert_eq!(get_assignments(Ok(envelope(200, work(), None))).unwrap().len(), 1);
    assert_eq!(get_assignments(Ok(envelope(201, work(), None))).unwrap_err(), "PopRaKo 获取派活列表失败");
    assert_eq!(get_assignments(Ok(envelope(200, None, None))).unwrap_err(), "PopRaKo 获取派活列表返回空数据");
    assert_eq!(get_assignments(Err("down".to_string())).unwrap_err(), "获取派活列表失败: down");
}

#[test]
fn default_filter_lets_everything_pass() {
    let filter = PoprakoProjFilterReq::default();
    assert!(filter.fuzzy_proj_name.is_none());
    assert!(filter.translating_status.is_none());
    assert!(filter.proofreading_status.is_none());
    assert!(filter.typesetting_status.is_none());
    assert!(filter.reviewing_status.is_none());
    assert!(filter.is_published.is_none());
    assert!(filter.member_ids.is_none());
    assert!(filter.projset_ids.is_none());
    assert!(filter.time_start.is_none());
    assert!(filter.page.is_none());
    assert!(filter.limit.is_none());
}
