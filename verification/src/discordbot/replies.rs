//! The messages the bot posts: the help replies, the greeting, the event
//! listings and the failure report sent to its owner.
use vstd::prelude::*;
use crate::discordbot::{
    aliases_list, aliases_text, all_named, answers_to, command_list, description_text, events_list_text,
    event_lines_text, failure_description, found_at, group_commands, group_title, help_reply, unknown_command,
    usage_text, CommandInfo, EventLine, FieldEmbed, GroupInfo, Handler, HelpReply, mention_forms,
};
use crate::mysql_db::ReportsTable;
use crate::text::has_prefix;
use crate::webserver::dtos::{severity_code, Severity};

verus! {

/// The colour of an embed.
pub enum EmbedColor {
    /// The bot's own colour.
    Violet,
    /// Discord's red.
    Red,
    /// Discord's dark green.
    DarkGreen,
    /// The colour of an event severity.
    Severity(Severity),
}

/// An embed as the bot composes it.
pub struct BotEmbed {
    pub color: EmbedColor,
    pub title: Option<String>,
    pub description: Option<String>,
    pub fields: Vec<FieldEmbed>,
    pub footer: Option<String>,
}

/// A message of the bot: one embed, posted as a reply to the message that
/// asked for it when `reference` holds.
pub struct BotMessage {
    pub reference: bool,
    pub embed: BotEmbed,
}

/// The text an optional string holds.
pub open spec fn text_of(o: Option<String>) -> Option<Seq<char>> {
    match o {
        Some(s) => Some(s@),
        None => None,
    }
}

/// A field with this name, value and inline flag.
pub open spec fn field_is(f: FieldEmbed, name: Seq<char>, value: Seq<char>, inline: bool) -> bool {
    f.name@ == name && f.value@ == value && f.inline == inline
}

/// An embed with this colour, title, description and footer, and no fields.
pub open spec fn plain_embed(
    e: BotEmbed,
    color: EmbedColor,
    title: Option<Seq<char>>,
    description: Option<Seq<char>>,
    footer: Option<Seq<char>>,
) -> bool {
    e.color == color && text_of(e.title) == title && text_of(e.description) == description
        && text_of(e.footer) == footer
}

/// The help overview: the bot's presentation, the help command and one
/// field per group with the official names of its commands.
pub open spec fn is_help_overview(m: BotMessage, groups: Seq<GroupInfo>, prefix: Seq<char>) -> bool {
    &&& m.reference
    &&& plain_embed(m.embed, EmbedColor::Violet, Some("**Meus comandos:**"@),
        Some("Sou Violet estou aqui para ajudar meus criadores e até mesmo você com logs e reports de bugs nas aplicações.\n\nMeu prefixo é: `"@
            + prefix + "`, e abaixo você pode encontrar a lista de meus comandos:"@),
        Some("Use "@ + prefix + "help {nome do comando} para mais ajuda sobre o mesmo"@))
    &&& m.embed.fields@.len() == groups.len() + 1
    &&& field_is(m.embed.fields@[0], "Ajuda ⁉:"@, "`"@ + prefix + "help`"@, false)
    &&& forall|i: int| #![trigger groups[i]] 0 <= i < groups.len()
        ==> field_is(m.embed.fields@[i + 1], groups[i].name@ + ":"@, command_list(groups[i].commands@), false)
}

/// The answer to `help help`.
pub open spec fn is_help_about(m: BotMessage) -> bool {
    &&& !m.reference
    &&& plain_embed(m.embed, EmbedColor::Violet, Some("Help"@),
        Some("Esse é o comando que possui a listagem de informações de todos os outros comandos 👍"@), None)
    &&& m.embed.fields@.len() == 0
}

/// The answer to `help` about a command that does not exist.
pub open spec fn is_unknown_command(m: BotMessage) -> bool {
    &&& !m.reference
    &&& plain_embed(m.embed, EmbedColor::Red, None, Some("Comando não existe."@), None)
    &&& m.embed.fields@.len() == 0
}

/// The description of a command, or a note that it has none.
pub open spec fn description_value(cmd: CommandInfo) -> Seq<char> {
    match cmd.desc {
        Some(d) => d@,
        None => "Nenhuma descrição informada"@,
    }
}

/// The usage of a command: `` `<prefix><name> <usage>` ``.
pub open spec fn usage_value(prefix: Seq<char>, cmd: CommandInfo) -> Seq<char> {
    "`"@ + prefix + cmd.names@[0]@ + " "@ + match cmd.usage {
        Some(u) => u@,
        None => "Sem uso informado"@,
    } + "`"@
}

/// The answer to `help <command>`: the official name, the description, the
/// aliases and the usage.
pub open spec fn is_command_help(m: BotMessage, cmd: CommandInfo, prefix: Seq<char>) -> bool {
    &&& !m.reference
    &&& plain_embed(m.embed, EmbedColor::Violet, Some(cmd.names@[0]@), Some(description_value(cmd)), None)
    &&& m.embed.fields@.len() == 2
    &&& field_is(m.embed.fields@[0], "Aliases:"@, aliases_list(cmd.names@), true)
    &&& field_is(m.embed.fields@[1], "Uso:"@, usage_value(prefix, cmd), true)
}

/// Every group's commands have an official name.
pub open spec fn all_groups_named(groups: Seq<GroupInfo>) -> bool {
    forall|g: int| 0 <= g < groups.len() ==> all_named(#[trigger] groups[g].commands@)
}

fn text(s: &str) -> (r: Option<String>)
    ensures
        text_of(r) == Some(s@),
{
    Some(String::from_str(s))
}

/// The help overview for these groups.
pub fn help_overview(groups: &Vec<GroupInfo>, prefix: &str) -> (m: BotMessage)
    requires
        all_groups_named(groups@),
    ensures
        is_help_overview(m, groups@, prefix@),
{
    let mut description = String::from_str("Sou Violet estou aqui para ajudar meus criadores e até mesmo você com logs e reports de bugs nas aplicações.\n\nMeu prefixo é: `");
    description.append(prefix);
    description.append("`, e abaixo você pode encontrar a lista de meus comandos:");
    let mut footer = String::from_str("Use ");
    footer.append(prefix);
    footer.append("help {nome do comando} para mais ajuda sobre o mesmo");
    let mut usage = String::from_str("`");
    usage.append(prefix);
    usage.append("help`");
    let mut fields: Vec<FieldEmbed> = Vec::new();
    fields.push(FieldEmbed { name: String::from_str("Ajuda ⁉:"), value: usage, inline: false });
    let n = groups.len();
    for i in 0..n
        invariant
            n == groups@.len(),
            all_groups_named(groups@),
            fields@.len() == i + 1,
            field_is(fields@[0], "Ajuda ⁉:"@, "`"@ + prefix@ + "help`"@, false),
            forall|j: int| #![trigger groups@[j]] 0 <= j < i
                ==> field_is(fields@[j + 1], groups@[j].name@ + ":"@, command_list(groups@[j].commands@), false),
    {
        assert(all_named(groups@[i as int].commands@));
        let name = group_title(&groups[i]);
        let value = group_commands(&groups[i]);
        fields.push(FieldEmbed { name, value, inline: false });
    }
    BotMessage {
        reference: true,
        embed: BotEmbed {
            color: EmbedColor::Violet,
            title: text("**Meus comandos:**"),
            description: Some(description),
            fields,
            footer: Some(footer),
        },
    }
}

/// The answer to `help help`.
pub fn help_about() -> (m: BotMessage)
    ensures
        is_help_about(m),
{
    BotMessage {
        reference: false,
        embed: BotEmbed {
            color: EmbedColor::Violet,
            title: text("Help"),
            description: text("Esse é o comando que possui a listagem de informações de todos os outros comandos 👍"),
            fields: Vec::new(),
            footer: None,
        },
    }
}

/// The answer to `help` about a command that does not exist.
pub fn unknown_command_message() -> (m: BotMessage)
    ensures
        is_unknown_command(m),
{
    BotMessage {
        reference: false,
        embed: BotEmbed {
            color: EmbedColor::Red,
            title: None,
            description: text("Comando não existe."),
            fields: Vec::new(),
            footer: None,
        },
    }
}

/// The answer to `help <command>` for this command.
pub fn command_help(prefix: &str, cmd: &CommandInfo) -> (m: BotMessage)
    requires
        cmd.names@.len() > 0,
    ensures
        is_command_help(m, *cmd, prefix@),
{
    let mut fields: Vec<FieldEmbed> = Vec::new();
    fields.push(FieldEmbed { name: String::from_str("Aliases:"), value: aliases_text(cmd), inline: true });
    fields.push(FieldEmbed { name: String::from_str("Uso:"), value: usage_text(prefix, cmd), inline: true });
    BotMessage {
        reference: false,
        embed: BotEmbed {
            color: EmbedColor::Violet,
            title: Some(cmd.names[0].clone()),
            description: Some(description_text(cmd)),
            fields,
            footer: None,
        },
    }
}

/// The message `help` answers with, given its first argument if any: the
/// overview without one, the help of `help` for `help`, the help of the first
/// command that answers to the name, or a note that no command does.
pub fn help_message(groups: &Vec<GroupInfo>, prefix: &str, arg: Option<&str>) -> (m: BotMessage)
    requires
        arg is None ==> all_groups_named(groups@),
    ensures
        match arg {
            None => is_help_overview(m, groups@, prefix@),
            Some(a) => if a@ == "help"@ {
                is_help_about(m)
            } else if unknown_command(groups@, a@) {
                is_unknown_command(m)
            } else {
                exists|g: int, i: int| found_at(groups@, a@, g, i)
                    && is_command_help(m, #[trigger] groups@[g].commands@[i], prefix@)
            },
        },
{
    match help_reply(groups, arg) {
        HelpReply::Overview => help_overview(groups, prefix),
        HelpReply::AboutHelp => help_about(),
        HelpReply::Unknown => unknown_command_message(),
        HelpReply::Command(g, i) => {
            proof {
                let a = arg->0;
                assert(answers_to(groups@[g as int].commands@[i as int], a@));
                assert(!unknown_command(groups@, a@));
                assert(groups@[g as int].commands@[i as int].names@.len() > 0);
            }
            let m = command_help(prefix, &groups[g].commands[i]);
            proof {
                assert(found_at(groups@, arg->0@, g as int, i as int));
            }
            m
        },
    }
}

/// The greeting the bot answers a mention of itself with.
pub open spec fn is_greeting(m: BotMessage, prefix: Seq<char>) -> bool {
    &&& m.reference
    &&& plain_embed(m.embed, EmbedColor::Violet, Some("Ola eu sou a Violet 👋"@),
        Some("Meus comandos podem ser vistos usando `"@ + prefix + "help`."@), None)
    &&& m.embed.fields@.len() == 0
}

/// The answer to a message: the greeting when the message is only a mention
/// of the bot, nothing otherwise.
pub fn mention_reply(content: &str, bot_id: u64, prefix: &str) -> (r: Option<BotMessage>)
    ensures
        (content.len() <= 22 && (has_prefix(content@, mention_forms(bot_id).0)
            || has_prefix(content@, mention_forms(bot_id).1))) ==> (r matches Some(m) && is_greeting(m, prefix@)),
        !(content.len() <= 22 && (has_prefix(content@, mention_forms(bot_id).0)
            || has_prefix(content@, mention_forms(bot_id).1))) ==> r is None,
{
    if Handler::is_bot_mention(content, bot_id) {
        let mut description = String::from_str("Meus comandos podem ser vistos usando `");
        description.append(prefix);
        description.append("help`.");
        Some(BotMessage {
            reference: true,
            embed: BotEmbed {
                color: EmbedColor::Violet,
                title: text("Ola eu sou a Violet 👋"),
                description: Some(description),
                fields: Vec::new(),
                footer: None,
            },
        })
    } else {
        None
    }
}

/// The listing of an application's latest events.
pub fn events_list_message(prefix: &str, lines: &Vec<EventLine>) -> (m: BotMessage)
    ensures
        !m.reference,
        plain_embed(m.embed, EmbedColor::Violet, Some("Ultimos 25 eventos:"@),
            Some("```"@ + (if lines@.len() == 0 { "Não existem eventos para esse app."@ } else { event_lines_text(lines@) }) + "```"@),
            Some("Use "@ + prefix@ + "evdet {:id} para ver informações sobre o evento."@)),
        m.embed.fields@.len() == 0,
{
    let body = events_list_text(lines);
    let mut description = String::from_str("```");
    description.append(body.as_str());
    description.append("```");
    let mut footer = String::from_str("Use ");
    footer.append(prefix);
    footer.append("evdet {:id} para ver informações sobre o evento.");
    BotMessage {
        reference: false,
        embed: BotEmbed {
            color: EmbedColor::Violet,
            title: text("Ultimos 25 eventos:"),
            description: Some(description),
            fields: Vec::new(),
            footer: Some(footer),
        },
    }
}

/// The answer to a request for an event that is not found.
pub open spec fn is_event_not_found(m: BotMessage) -> bool {
    &&& !m.reference
    &&& plain_embed(m.embed, EmbedColor::Red, None, Some("Informação não encontrada."@), None)
    &&& m.embed.fields@.len() == 0
}

/// The details of a stored event, in its severity's colour.
pub open spec fn is_event_detail(
    m: BotMessage,
    report: ReportsTable,
    severity: Severity,
    severity_name: Seq<char>,
    stacktrace_field: Seq<char>,
) -> bool {
    &&& !m.reference
    &&& plain_embed(m.embed, EmbedColor::Severity(severity), Some(severity_name + ": "@ + report.title@),
        Some("```"@ + report.message@ + "```"@), None)
    &&& m.embed.fields@.len() == 1
    &&& field_is(m.embed.fields@[0], "Stacktrace:"@, stacktrace_field, true)
}

/// The answer to a request for an event that is not found.
pub fn event_not_found_message() -> (m: BotMessage)
    ensures
        is_event_not_found(m),
{
    BotMessage {
        reference: false,
        embed: BotEmbed {
            color: EmbedColor::Red,
            title: None,
            description: text("Informação não encontrada."),
            fields: Vec::new(),
            footer: None,
        },
    }
}

/// The details of a stored event: in its severity's colour, titled with the
/// severity's name and the event's title, the message in a code block and the
/// stack trace, as the caller shortened it to fit a field, beside it.
pub fn event_detail_message(report: &ReportsTable, severity: Severity, severity_name: &str, stacktrace_field: &str) -> (m: BotMessage)
    ensures
        is_event_detail(m, *report, severity, severity_name@, stacktrace_field@),
{
    let mut title = String::from_str(severity_name);
    title.append(": ");
    title.append(report.title.as_str());
    let mut description = String::from_str("```");
    description.append(report.message.as_str());
    description.append("```");
    let mut fields: Vec<FieldEmbed> = Vec::new();
    fields.push(FieldEmbed { name: String::from_str("Stacktrace:"), value: String::from_str(stacktrace_field), inline: true });
    BotMessage {
        reference: false,
        embed: BotEmbed {
            color: EmbedColor::Severity(severity),
            title: Some(title),
            description: Some(description),
            fields,
            footer: None,
        },
    }
}

/// The answer to `evdet`, given what the lookup of the event found: a note
/// that nothing was found, or the event's details under its own severity
/// (`severity` is the report's, `severity_name` its name and
/// `stacktrace_field` its stack trace shortened to fit a field).
pub fn event_detail_reply(
    found: &Option<ReportsTable>,
    severity: Severity,
    severity_name: &str,
    stacktrace_field: &str,
) -> (m: BotMessage)
    requires
        found matches Some(r) ==> severity_code(severity) == r.severity,
    ensures
        match found {
            None => is_event_not_found(m),
            Some(r) => is_event_detail(m, *r, severity, severity_name@, stacktrace_field@),
        },
{
    match found {
        None => event_not_found_message(),
        Some(r) => event_detail_message(r, severity, severity_name, stacktrace_field),
    }
}

/// What the bot does with a failed command: the line it logs and the message
/// it sends its owner; nothing for an end-of-stream error. `now` is the time
/// of the failure as text, `error_debug` the debug text of the error.
pub fn failure_report(cmd_name: Option<&str>, error_debug: &str, now: &str) -> (r: Option<(String, BotEmbed)>)
    ensures
        error_debug@ == "Eos"@ <==> r is None,
        r matches Some((line, e)) ==> {
            let name = match cmd_name {
                Some(c) => c@,
                None => "NaC"@,
            };
            &&& line@ == "["@ + now@ + "][Erro no bot]: "@ + name + ": "@ + error_debug@
            &&& plain_embed(e, EmbedColor::Red, Some("Ocorreu um erro desconhecido na **Violet**"@),
                Some("```"@ + name + ": "@ + error_debug@ + "```"@), None)
            &&& e.fields@.len() == 0
        },
{
    match failure_description(cmd_name, error_debug) {
        None => None,
        Some(description) => {
            let mut line = String::from_str("[");
            line.append(now);
            line.append("][Erro no bot]: ");
            match cmd_name {
                Some(c) => line.append(c),
                None => line.append("NaC"),
            }
            line.append(": ");
            line.append(error_debug);
            Some((line, BotEmbed {
                color: EmbedColor::Red,
                title: text("Ocorreu um erro desconhecido na **Violet**"),
                description: Some(description),
                fields: Vec::new(),
                footer: None,
            }))
        },
    }
}

} // verus!
