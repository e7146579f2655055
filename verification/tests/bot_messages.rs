use violet::discordbot::registration::{regapp_step, RegappAction, RegappEvent, RegappFailure, RegappState};
use violet::discordbot::replies::{
    event_detail_message, event_detail_reply, event_not_found_message, events_list_message, failure_report, help_message,
    mention_reply, BotEmbed, BotMessage, EmbedColor,
};
use violet::discordbot::{AppEventTracker, CommandInfo, EventLine, GroupInfo, RegappError};
use violet::mysql_db::{AppTable, ReportsTable};
use violet::webserver::dtos::Severity;

fn command(names: &[&str], desc: Option<&str>, usage: Option<&str>) -> CommandInfo {
    CommandInfo {
        names: names.iter().map(|n| n.to_string()).collect(),
        desc: desc.map(|d| d.to_string()),
        usage: usage.map(|u| u.to_string()),
    }
}

fn fields(e: &BotEmbed) -> Vec<(String, String, bool)> {
    e.fields.iter().map(|f| (f.name.clone(), f.value.clone(), f.inline)).collect()
}

fn owned(pairs: &[(&str, &str, bool)]) -> Vec<(String, String, bool)> {
    pairs.iter().map(|(n, v, i)| (n.to_string(), v.to_string(), *i)).collect()
}

#[test]
fn help_overview_lists_every_group() {
    let groups = vec![AppEventTracker::group()];
    let m = help_message(&groups, "!", None);
    assert!(m.reference);
    assert!(matches!(m.embed.color, EmbedColor::Violet));
    assert_eq!(m.embed.title.as_deref(), Some("**Meus comandos:**"));
    assert_eq!(
        m.embed.description.as_deref(),
        Some("Sou Violet estou aqui para ajudar meus criadores e até mesmo você com logs e reports de bugs nas aplicações.\n\nMeu prefixo é: `!`, e abaixo você pode encontrar a lista de meus comandos:")
    );
    assert_eq!(m.embed.footer.as_deref(), Some("Use !help {nome do comando} para mais ajuda sobre o mesmo"));
    assert_eq!(
        fields(&m.embed),
        owned(&[
            ("Ajuda ⁉:", "`!help`", false),
            ("Rastreador de Eventos 🖥️:", " `regapp` `evlist` `evdet`", false),
        ])
    );
}

#[test]
fn help_about_help_and_unknown_commands() {
    let groups = vec![AppEventTracker::group()];
    let m = help_message(&groups, "!", Some("help"));
    assert!(!m.reference);
    assert_eq!(m.embed.title.as_deref(), Some("Help"));
    assert_eq!(
        m.embed.description.as_deref(),
        Some("Esse é o comando que possui a listagem de informações de todos os outros comandos 👍")
    );
    let m = help_message(&groups, "!", Some("nada"));
    assert!(matches!(m.embed.color, EmbedColor::Red));
    assert_eq!(m.embed.title, None);
    assert_eq!(m.embed.description.as_deref(), Some("Comando não existe."));
    assert!(m.embed.fields.is_empty());
}

#[test]
fn help_about_a_command_by_alias() {
    let groups = vec![
        GroupInfo { name: "G".to_string(), commands: vec![command(&["ping"], None, None)] },
        AppEventTracker::group(),
    ];
    let m = help_message(&groups, "v!", Some("lsev"));
    assert_eq!(m.embed.title.as_deref(), Some("evlist"));
    assert_eq!(m.embed.description.as_deref(), Some("Lista os ultimos 25 eventos de uma aplicação."));
    assert_eq!(
        fields(&m.embed),
        owned(&[("Aliases:", "\n`listev`\n`lsev`", true), ("Uso:", "`v!evlist {id da aplicação}`", true)])
    );
    let m = help_message(&groups, "v!", Some("ping"));
    assert_eq!(m.embed.description.as_deref(), Some("Nenhuma descrição informada"));
    assert_eq!(fields(&m.embed), owned(&[("Aliases:", "", true), ("Uso:", "`v!ping Sem uso informado`", true)]));
}

#[test]
fn mention_is_greeted() {
    let m = mention_reply("<@!42>", 42, "!").unwrap();
    assert!(m.reference);
    assert_eq!(m.embed.title.as_deref(), Some("Ola eu sou a Violet 👋"));
    assert_eq!(m.embed.description.as_deref(), Some("Meus comandos podem ser vistos usando `!help`."));
    assert!(mention_reply("hi <@42>", 42, "!").is_none());
}

#[test]
fn event_listing_and_details() {
    let m = events_list_message("!", &vec![]);
    assert_eq!(m.embed.title.as_deref(), Some("Ultimos 25 eventos:"));
    assert_eq!(m.embed.description.as_deref(), Some("```Não existem eventos para esse app.```"));
    assert_eq!(m.embed.footer.as_deref(), Some("Use !evdet {:id} para ver informações sobre o evento."));
    let lines = vec![EventLine { id: 9, severity_name: "Erro".to_string(), title: "boom".to_string() }];
    let m = events_list_message("!", &lines);
    assert_eq!(m.embed.description.as_deref(), Some("```\n9: (Erro): boom```"));

    let m = event_not_found_message();
    assert!(matches!(m.embed.color, EmbedColor::Red));
    assert_eq!(m.embed.description.as_deref(), Some("Informação não encontrada."));

    let report = ReportsTable {
        id: 9,
        severity: 2,
        title: "boom".to_string(),
        message: "it broke".to_string(),
        stacktrace: Some("at main".to_string()),
        timestamp: 0,
        app_id: 1,
    };
    let m = event_detail_message(&report, Severity::Error, "Erro", "at main");
    assert!(matches!(m.embed.color, EmbedColor::Severity(Severity::Error)));
    assert_eq!(m.embed.title.as_deref(), Some("Erro: boom"));
    assert_eq!(m.embed.description.as_deref(), Some("```it broke```"));
    assert_eq!(fields(&m.embed), owned(&[("Stacktrace:", "at main", true)]));
}

#[test]
fn event_detail_reply_follows_the_lookup() {
    let m = event_detail_reply(&None, Severity::Info, "Info", "");
    assert!(matches!(m.embed.color, EmbedColor::Red));
    assert_eq!(m.embed.description.as_deref(), Some("Informação não encontrada."));
    let report = ReportsTable {
        id: 3,
        severity: 1,
        title: "down".to_string(),
        message: "db".to_string(),
        stacktrace: Some("trace".to_string()),
        timestamp: 0,
        app_id: 1,
    };
    let m = event_detail_reply(&Some(report), Severity::Severe, "Grave", "trace");
    assert!(matches!(m.embed.color, EmbedColor::Severity(Severity::Severe)));
    assert_eq!(m.embed.title.as_deref(), Some("Grave: down"));
    assert_eq!(m.embed.description.as_deref(), Some("```db```"));
    assert_eq!(fields(&m.embed), owned(&[("Stacktrace:", "trace", true)]));
}

#[test]
fn help_for_a_command_needs_no_names_elsewhere() {
    let groups = vec![
        GroupInfo { name: "G".to_string(), commands: vec![command(&["ping"], None, None), command(&[], None, None)] },
    ];
    let m = help_message(&groups, "!", Some("ping"));
    assert_eq!(m.embed.title.as_deref(), Some("ping"));
    assert_eq!(help_message(&groups, "!", Some("pong")).embed.description.as_deref(), Some("Comando não existe."));
}

#[test]
fn failures_are_reported_to_the_owner() {
    assert!(failure_report(Some("evlist"), "Eos", "now").is_none());
    let (line, e) = failure_report(None, "Parse", "2024-01-01").unwrap();
    assert_eq!(line, "[2024-01-01][Erro no bot]: NaC: Parse");
    assert!(matches!(e.color, EmbedColor::Red));
    assert_eq!(e.title.as_deref(), Some("Ocorreu um erro desconhecido na **Violet**"));
    assert_eq!(e.description.as_deref(), Some("```NaC: Parse```"));
}

type Step = (RegappState, RegappAction<String>);

fn step(state: RegappState, event: RegappEvent<String>) -> Step {
    regapp_step(state, event, "!", 77)
}

fn asked(s: &Step) -> &BotMessage {
    match &s.1 {
        RegappAction::Ask(m) => m,
        _ => panic!("expected a question"),
    }
}

fn ends_quietly(s: &Step) -> bool {
    matches!(s, (RegappState::Finished, RegappAction::Finish(Ok(()))))
}

fn app() -> AppTable {
    AppTable { id: 5, name: "Shop".to_string(), id_user: 77, token_app: "tok".to_string(), webhook_url: "https://hook".to_string() }
}

#[test]
fn registration_asks_then_stops_quietly() {
    let s = step(RegappState::Start, RegappEvent::Begin);
    assert!(asked(&s).reference);
    assert_eq!(asked(&s).embed.title.as_deref(), Some("Adicionar nova aplicação ao Rastreador de Eventos:"));
    assert_eq!(asked(&s).embed.description.as_deref(), Some("Infome o nome da sua aplicação ou ignore essa mensagem:"));
    assert!(ends_quietly(&step(RegappState::AwaitingName, RegappEvent::Answer(Ok(None)))));
    assert!(ends_quietly(&step(RegappState::AwaitingName, RegappEvent::Answer(Ok(Some("!help".to_string()))))));
    let name = || RegappState::AwaitingWebhook { name: "Shop".to_string() };
    assert!(ends_quietly(&step(name(), RegappEvent::Answer(Ok(None)))));
    assert!(ends_quietly(&step(name(), RegappEvent::Answer(Ok(Some("!evlist".to_string()))))));
    assert!(ends_quietly(&step(name(), RegappEvent::Answer(Ok(Some("create #geral".to_string()))))));
    let failed = step(RegappState::AwaitingName, RegappEvent::Answer(Err("send".to_string())));
    assert!(matches!(failed, (RegappState::Finished, RegappAction::Finish(Err(RegappFailure::Outside(e)))) if e == "send"));
}

#[test]
fn registration_with_a_url_stores_then_delivers_the_token() {
    let s = step(RegappState::AwaitingName, RegappEvent::Answer(Ok(Some("Shop".to_string()))));
    assert!(matches!(&s.0, RegappState::AwaitingWebhook { name } if name == "Shop"));
    assert!(!asked(&s).reference);
    let s = step(s.0, RegappEvent::Answer(Ok(Some("https://hook".to_string()))));
    match &s.1 {
        RegappAction::Insert { name, owner, webhook_url } => {
            assert_eq!((name.as_str(), *owner, webhook_url.as_str()), ("Shop", 77, "https://hook"))
        }
        _ => panic!("expected the insert"),
    }
    let s = step(s.0, RegappEvent::Inserted(Ok(app())));
    match &s.1 {
        RegappAction::SendDm(e) => assert_eq!(
            fields(e),
            owned(&[
                ("Identificador:", "5", true),
                ("Nome da Aplicação:", "Shop", true),
                ("Token da Aplicação:", "||tok||", false),
            ])
        ),
        _ => panic!("expected the token message"),
    }
    let s = step(s.0, RegappEvent::DmDelivered(false));
    match &s.1 {
        RegappAction::NotifyDmBlocked { notice, reaction } => {
            assert_eq!(*reaction, '✅');
            assert_eq!(
                notice.embed.description.as_deref(),
                Some("Sua dm esta bloqueada, favor libere sua dm e pressione o ✅ abaixo.")
            );
        }
        _ => panic!("expected the notice"),
    }
    let s = step(s.0, RegappEvent::Notified(Ok(())));
    assert!(matches!(s.1, RegappAction::SendDm(_)));
    let s = step(s.0, RegappEvent::DmDelivered(true));
    match &s.1 {
        RegappAction::Confirm(m) => {
            assert!(matches!(m.embed.color, EmbedColor::DarkGreen));
            assert_eq!(
                m.embed.description.as_deref(),
                Some("Aplicação cadastrada com sucesso.\n\nDados especiais foram mandado para seu DM.")
            );
        }
        _ => panic!("expected the confirmation"),
    }
    assert!(ends_quietly(&step(s.0, RegappEvent::Confirmed(Ok(())))));
}

#[test]
fn registration_creates_a_webhook_for_a_channel() {
    let s = step(
        RegappState::AwaitingWebhook { name: "Shop".to_string() },
        RegappEvent::Answer(Ok(Some("create <#123456789012345678>".to_string()))),
    );
    match &s.1 {
        RegappAction::CreateWebhook { channel, name } => {
            assert_eq!((*channel, name.as_str()), (123456789012345678, "Shop alerts!"))
        }
        _ => panic!("expected the webhook"),
    }
    let s = step(s.0, RegappEvent::WebhookCreated(Ok("https://made".to_string())));
    assert!(matches!(&s.1, RegappAction::Insert { webhook_url, .. } if webhook_url == "https://made"));
    let failed = step(RegappState::Inserting, RegappEvent::Inserted(Err("db".to_string())));
    assert!(matches!(failed, (RegappState::Finished, RegappAction::Finish(Err(RegappFailure::Outside(_))))));
    let digits = "١".repeat(18);
    let refused = step(
        RegappState::AwaitingWebhook { name: "Shop".to_string() },
        RegappEvent::Answer(Ok(Some(format!("create <#{}>", digits)))),
    );
    assert!(matches!(refused.1, RegappAction::Finish(Err(RegappFailure::Refused(RegappError::InvalidChannel)))));
}
