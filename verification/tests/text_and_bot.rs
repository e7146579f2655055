use violet::discordbot::{
    aliases_text, continues_registration, description_text, events_list_text, failure_description,
    find_command, group_commands, group_title, help_reply, parse_u64, reduce_to_field, AppEventTracker, Handler,
    usage_text, webhook_name, webhook_step, CommandInfo, EventLine, GroupInfo, HelpReply,
    RegappStep, RegappError,
};
use violet::text::{chars_of, cut_token, decimal_text, remove_all, same_text, starts_with, string_of};

#[test]
fn remove_all_takes_out_every_bearer() {
    assert_eq!(remove_all("Bearer abc", "Bearer "), "abc");
    assert_eq!(remove_all("xBearer Bearer y", "Bearer "), "xy");
    assert_eq!(remove_all("token", "Bearer "), "token");
    assert_eq!(remove_all("BearerBearer x", "Bearer "), "Bearerx");
    assert_eq!(remove_all("abc", ""), "abc");
}

#[test]
fn prefixes_and_equality() {
    assert!(starts_with("Bearer x", "Bearer "));
    assert!(!starts_with("Bear", "Bearer "));
    assert!(starts_with("anything", ""));
    assert!(same_text("help", "help"));
    assert!(!same_text("help", "hel"));
    assert_eq!(string_of(&chars_of("açaí")), "açaí");
}

#[test]
fn cut_token_keeps_five_bytes() {
    assert_eq!(cut_token("abcdefghij"), "abcde...");
    assert_eq!(cut_token("abcde"), "abcde...");
    assert_eq!(cut_token("ab€cd"), "ab€...");
}

#[test]
fn decimal_text_of_numbers() {
    assert_eq!(decimal_text(0), "0");
    assert_eq!(decimal_text(7), "7");
    assert_eq!(decimal_text(1234567890123456789), "1234567890123456789");
    assert_eq!(decimal_text(u64::MAX), "18446744073709551615");
}

#[test]
fn reduce_to_field_cuts_long_texts() {
    assert_eq!(reduce_to_field("hello world", 8), "hello...");
    assert_eq!(reduce_to_field("hello", 8), "hello");
    assert_eq!(reduce_to_field("12345678", 8), "12345678");
    assert_eq!(reduce_to_field("123456789", 8), "12345...");
}

#[test]
fn mention_detection() {
    assert!(Handler::is_bot_mention("<@!123>", 123));
    assert!(Handler::is_bot_mention("<@123> oi", 123));
    assert!(!Handler::is_bot_mention("<@124>", 123));
    assert!(!Handler::is_bot_mention("hello <@123>", 123));
    assert!(!Handler::is_bot_mention("<@123> this message is long", 123));
}

#[test]
fn parse_u64_reads_like_from_str() {
    for text in ["0", "42", "+42", "007", "18446744073709551615", "18446744073709551616", "", "+", "-1", "4a", " 4"] {
        assert_eq!(parse_u64(text), text.parse::<u64>().ok(), "{}", text);
    }
    assert_eq!(parse_u64(&decimal_text(987654321)), Some(987654321));
}

#[test]
fn webhook_step_choices() {
    assert!(matches!(webhook_step("!regapp", "!"), Ok(RegappStep::Stop)));
    assert!(matches!(webhook_step("create <#123456789012345678>", "!"), Ok(RegappStep::CreateWebhook(123456789012345678))));
    assert!(matches!(webhook_step("create <#12345>", "!"), Ok(RegappStep::Stop)));
    assert!(matches!(webhook_step("create #general", "!"), Ok(RegappStep::Stop)));
    match webhook_step("https://discord.com/api/webhooks/1/x", "!") {
        Ok(RegappStep::UseUrl(u)) => assert_eq!(u, "https://discord.com/api/webhooks/1/x"),
        _ => panic!("expected a URL"),
    }
    let _ = RegappError::InvalidChannel;
    assert!(continues_registration("my app", "!"));
    assert!(!continues_registration("!help", "!"));
    assert_eq!(webhook_name("Shop"), "Shop alerts!");
}

#[test]
fn failure_description_skips_end_of_stream() {
    assert_eq!(failure_description(Some("evlist"), "Eos"), None);
    assert_eq!(failure_description(Some("evlist"), "Parse"), Some("```evlist: Parse```".to_string()));
    assert_eq!(failure_description(None, "Parse"), Some("```NaC: Parse```".to_string()));
}

fn command(names: &[&str], desc: Option<&str>, usage: Option<&str>) -> CommandInfo {
    CommandInfo {
        names: names.iter().map(|n| n.to_string()).collect(),
        desc: desc.map(|d| d.to_string()),
        usage: usage.map(|u| u.to_string()),
    }
}

fn groups() -> Vec<GroupInfo> {
    vec![
        GroupInfo { name: "Geral".to_string(), commands: vec![command(&["ping"], None, None)] },
        GroupInfo {
            name: "Rastreador de Eventos".to_string(),
            commands: vec![
                command(&["regapp", "addapp"], Some("Registra"), Some("")),
                command(&["evlist", "listev", "lsev"], Some("Lista"), Some("{id}")),
                command(&["evdet", "ping"], None, None),
            ],
        },
    ]
}

#[test]
fn help_finds_commands_by_any_name() {
    let g = groups();
    assert!(matches!(find_command(&g, "lsev"), Some((1, 1))));
    assert!(matches!(find_command(&g, "ping"), Some((0, 0))));
    assert!(find_command(&g, "nope").is_none());
    assert!(matches!(help_reply(&g, None), HelpReply::Overview));
    assert!(matches!(help_reply(&g, Some("help")), HelpReply::AboutHelp));
    assert!(matches!(help_reply(&g, Some("addapp")), HelpReply::Command(1, 0)));
    assert!(matches!(help_reply(&g, Some("x")), HelpReply::Unknown));
}

#[test]
fn help_texts() {
    let g = groups();
    assert_eq!(group_title(&g[1]), "Rastreador de Eventos:");
    assert_eq!(group_commands(&g[1]), " `regapp` `evlist` `evdet`");
    assert_eq!(aliases_text(&g[1].commands[1]), "\n`listev`\n`lsev`");
    assert_eq!(aliases_text(&g[0].commands[0]), "");
    assert_eq!(usage_text("!", &g[1].commands[1]), "`!evlist {id}`");
    assert_eq!(usage_text("!", &g[0].commands[0]), "`!ping Sem uso informado`");
    assert_eq!(description_text(&g[1].commands[0]), "Registra");
    assert_eq!(description_text(&g[0].commands[0]), "Nenhuma descrição informada");
}

#[test]
fn events_listing_text() {
    assert_eq!(events_list_text(&vec![]), "Não existem eventos para esse app.");
    let lines = vec![
        EventLine { id: 3, severity_name: "Erro".to_string(), title: "boom".to_string() },
        EventLine { id: 12, severity_name: "Info".to_string(), title: "ok".to_string() },
    ];
    assert_eq!(events_list_text(&lines), "\n3: (Erro): boom\n12: (Info): ok");
}

#[test]
fn webhook_payload_matches_template() {
    let expected = format!(r#"
                            {{
                                "embeds": [

                                    {{
                                        "author": {{
                                            "name": "{}"
                                        }},
                                        "title": "{}: {}",
                                        "description": "```{}```",
                                        "color": {},
                                        "fields": [
                                            {{
                                                "name": "Stacktrace:",
                                                "value": "```{}```",
                                                "inline": true
                                            }}
                                        ]
                                    }}
                                ]
                            }}
                        "#, "Shop", "Erro", "Crash", "null pointer", 16711680u32, "at main");
    assert_eq!(Handler::webhook_payload("Shop", "Erro", "Crash", "null pointer", 16711680, "at main"), expected);
}

#[test]
fn event_tracker_group() {
    let g = vec![AppEventTracker::group()];
    assert_eq!(group_commands(&g[0]), " `regapp` `evlist` `evdet`");
    assert!(matches!(help_reply(&g, Some("eventdetail")), HelpReply::Command(0, 2)));
    assert_eq!(usage_text("!", &g[0].commands[0]), "`!regapp `");
}
