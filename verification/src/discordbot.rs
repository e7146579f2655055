//! The decisions of the Discord bot: how it recognises a mention, how it
//! answers `help`, how it registers an application and how it shapes texts.
pub mod registration;
pub mod replies;

use vstd::prelude::*;
use vstd::string::*;
use vstd::utf8::*;
use crate::text::{byte_prefix, decimal, decimal_text, digit_char, has_prefix, same_text, starts_with};

verus! {

/// An embed posted to a webhook.
pub struct WebhookEmbed {
    pub embeds: Vec<EmbedSerializer>,
}

/// One embed of a webhook message.
pub struct EmbedSerializer {
    pub author: AuthorEmbed,
    pub title: String,
    pub description: String,
    pub color: u32,
    pub fields: Option<Vec<FieldEmbed>>,
}

/// The author line of an embed.
pub struct AuthorEmbed {
    pub name: String,
}

/// A field of an embed.
pub struct FieldEmbed {
    pub name: String,
    pub value: String,
    pub inline: bool,
}

/// Shortens `el` to fit a field of `cut_len` bytes: a text longer than that is
/// cut to its first `cut_len - 3` bytes followed by `...`; a shorter one is kept.
pub fn reduce_to_field(el: &str, cut_len: usize) -> (r: String)
    requires
        el.spec_bytes().len() <= usize::MAX,
        el.spec_bytes().len() > cut_len ==> cut_len >= 3 && is_char_boundary(el.spec_bytes(), cut_len - 3),
    ensures
        el.spec_bytes().len() > cut_len ==> r@ == byte_prefix(el@, cut_len - 3) + "..."@,
        el.spec_bytes().len() <= cut_len ==> r@ == el@,
{
    if el.len() > cut_len {
        let (head, _tail) = el.split_at(cut_len - 3);
        proof {
            encode_utf8_decode_utf8(head@);
            assert(head.spec_bytes() == el.spec_bytes().take(cut_len - 3));
        }
        let mut r = String::from_str(head);
        r.append("...");
        r
    } else {
        String::from_str(el)
    }
}

/// The two ways a message can mention the bot: `<@!id>` and `<@id>`.
pub open spec fn mention_forms(bot_id: u64) -> (Seq<char>, Seq<char>) {
    ("<@!"@ + decimal(bot_id as nat) + ">"@, "<@"@ + decimal(bot_id as nat) + ">"@)
}

/// The bot's event handler.
pub struct Handler;

impl Handler {
    /// A message that is only a mention of the bot: at most 22 bytes long and
    /// starting with one of its mention forms.
    pub fn is_bot_mention(content: &str, bot_id: u64) -> (r: bool)
        ensures
            r == (content.len() <= 22 && (has_prefix(content@, mention_forms(bot_id).0)
                || has_prefix(content@, mention_forms(bot_id).1))),
    {
        let id = decimal_text(bot_id);
        let mut template_1 = String::from_str("<@!");
        template_1.append(id.as_str());
        template_1.append(">");
        let mut template_2 = String::from_str("<@");
        template_2.append(id.as_str());
        template_2.append(">");
        content.len() <= 22 && (starts_with(content, template_1.as_str()) || starts_with(content, template_2.as_str()))
    }

    /// The JSON message that forwards an event to its application's webhook.
    pub fn webhook_payload(
        app_name: &str,
        severity_name: &str,
        title: &str,
        message: &str,
        color: u32,
        stacktrace: &str,
    ) -> (r: String)
        ensures
            r@ == webhook_payload_text(app_name@, severity_name@, title@, message@, color, stacktrace@),
    {
        let color_text = decimal_text(color as u64);
        let mut r = String::from_str("\n                            {\n                                \"embeds\": [\n\n                                    {\n                                        \"author\": {\n                                            \"name\": \"");
        r.append(app_name);
        r.append("\"\n                                        },\n                                        \"title\": \"");
        r.append(severity_name);
        r.append(": ");
        r.append(title);
        r.append("\",\n                                        \"description\": \"```");
        r.append(message);
        r.append("```\",\n                                        \"color\": ");
        r.append(color_text.as_str());
        r.append(",\n                                        \"fields\": [\n                                            {\n                                                \"name\": \"Stacktrace:\",\n                                                \"value\": \"```");
        r.append(stacktrace);
        r.append("```\",\n                                                \"inline\": true\n                                            }\n                                        ]\n                                    }\n                                ]\n                            }\n                        ");
        r
    }
}

/// A command as the help reads it: its names (the first is the official
/// one, the rest aliases), description and usage.
pub struct CommandInfo {
    pub names: Vec<String>,
    pub desc: Option<String>,
    pub usage: Option<String>,
}

/// A group of commands.
pub struct GroupInfo {
    pub name: String,
    pub commands: Vec<CommandInfo>,
}

/// A command answers to `name`.
pub open spec fn answers_to(c: CommandInfo, name: Seq<char>) -> bool {
    exists|j: int| 0 <= j < c.names@.len() && (#[trigger] c.names@[j])@ == name
}

/// Every command has an official name.
pub open spec fn all_named(commands: Seq<CommandInfo>) -> bool {
    forall|i: int| 0 <= i < commands.len() ==> (#[trigger] commands[i]).names@.len() > 0
}

/// The overview line of a group: ` `name`` for each command, in order.
pub open spec fn command_list(commands: Seq<CommandInfo>) -> Seq<char>
    decreases commands.len(),
{
    if commands.len() == 0 {
        Seq::empty()
    } else {
        command_list(commands.drop_last()) + " `"@ + commands.last().names@[0]@ + "`"@
    }
}

/// The title of a group in the overview: its name and a colon.
pub fn group_title(group: &GroupInfo) -> (r: String)
    ensures
        r@ == group.name@ + ":"@,
{
    let mut r = group.name.clone();
    r.append(":");
    r
}

/// The overview line of a group's commands.
pub fn group_commands(group: &GroupInfo) -> (r: String)
    requires
        all_named(group.commands@),
    ensures
        r@ == command_list(group.commands@),
{
    let mut r = String::new();
    let n = group.commands.len();
    for i in 0..n
        invariant
            n == group.commands@.len(),
            all_named(group.commands@),
            r@ == command_list(group.commands@.take(i as int)),
    {
        assert(group.commands@[i as int].names@.len() > 0);
        r.append(" `");
        r.append(group.commands[i].names[0].as_str());
        r.append("`");
        assert(group.commands@.take(i + 1).drop_last() =~= group.commands@.take(i as int));
    }
    assert(group.commands@.take(n as int) =~= group.commands@);
    r
}

fn command_answers_to(c: &CommandInfo, name: &str) -> (b: bool)
    ensures
        b == answers_to(*c, name@),
{
    let n = c.names.len();
    for j in 0..n
        invariant
            n == c.names@.len(),
            forall|k: int| 0 <= k < j ==> (#[trigger] c.names@[k])@ != name@,
    {
        if same_text(c.names[j].as_str(), name) {
            assert(c.names@[j as int]@ == name@);
            return true;
        }
    }
    false
}

/// Where `help <name>` finds a command: the first group that has a command
/// answering to the name, and the first such command in it.
pub open spec fn found_at(groups: Seq<GroupInfo>, name: Seq<char>, g: int, i: int) -> bool {
    &&& 0 <= g < groups.len()
    &&& 0 <= i < groups[g].commands@.len()
    &&& answers_to(groups[g].commands@[i], name)
    &&& forall|k: int| 0 <= k < i ==> !answers_to(#[trigger] groups[g].commands@[k], name)
    &&& forall|h: int, k: int| 0 <= h < g && 0 <= k < groups[h].commands@.len()
        ==> !answers_to(#[trigger] groups[h].commands@[k], name)
}

/// No group has a command answering to the name.
pub open spec fn unknown_command(groups: Seq<GroupInfo>, name: Seq<char>) -> bool {
    forall|h: int, k: int| 0 <= h < groups.len() && 0 <= k < groups[h].commands@.len()
        ==> !answers_to(#[trigger] groups[h].commands@[k], name)
}

/// The command `help <name>` is about, as a group index and a command index.
pub fn find_command(groups: &Vec<GroupInfo>, name: &str) -> (r: Option<(usize, usize)>)
    ensures
        match r {
            Some((g, i)) => found_at(groups@, name@, g as int, i as int),
            None => unknown_command(groups@, name@),
        },
{
    let gn = groups.len();
    for g in 0..gn
        invariant
            gn == groups@.len(),
            forall|h: int, k: int| 0 <= h < g && 0 <= k < groups@[h].commands@.len()
                ==> !answers_to(#[trigger] groups@[h].commands@[k], name@),
    {
        let cn = groups[g].commands.len();
        for i in 0..cn
            invariant
                gn == groups@.len(),
                g < gn,
                cn == groups@[g as int].commands@.len(),
                forall|h: int, k: int| 0 <= h < g && 0 <= k < groups@[h].commands@.len()
                    ==> !answers_to(#[trigger] groups@[h].commands@[k], name@),
                forall|k: int| 0 <= k < i ==> !answers_to(#[trigger] groups@[g as int].commands@[k], name@),
        {
            if command_answers_to(&groups[g].commands[i], name) {
                return Some((g, i));
            }
        }
        assert forall|h: int, k: int| 0 <= h < g + 1 && 0 <= k < groups@[h].commands@.len()
            implies !answers_to(#[trigger] groups@[h].commands@[k], name@) by {
            if h == g {
            }
        }
    }
    None
}

/// What `help` answers.
pub enum HelpReply {
    /// No argument: the overview of every group.
    Overview,
    /// `help help`: what the help command does.
    AboutHelp,
    /// No command answers to the name.
    Unknown,
    /// The command at these group and command indices.
    Command(usize, usize),
}

/// The answer to `help`, given its first argument if any.
pub fn help_reply(groups: &Vec<GroupInfo>, arg: Option<&str>) -> (r: HelpReply)
    ensures
        match arg {
            None => r is Overview,
            Some(a) => if a@ == "help"@ {
                r is AboutHelp
            } else {
                match r {
                    HelpReply::Command(g, i) => found_at(groups@, a@, g as int, i as int),
                    HelpReply::Unknown => unknown_command(groups@, a@),
                    _ => false,
                }
            },
        },
{
    match arg {
        None => HelpReply::Overview,
        Some(a) => {
            if same_text(a, "help") {
                HelpReply::AboutHelp
            } else {
                match find_command(groups, a) {
                    Some((g, i)) => HelpReply::Command(g, i),
                    None => HelpReply::Unknown,
                }
            }
        },
    }
}

/// The aliases of a command: each on a line of its own, in backquotes.
pub open spec fn aliases_list(names: Seq<String>) -> Seq<char>
    decreases names.len(),
{
    if names.len() <= 1 {
        Seq::empty()
    } else {
        aliases_list(names.drop_last()) + "\n`"@ + names.last()@ + "`"@
    }
}

/// The aliases field of a command.
pub fn aliases_text(cmd: &CommandInfo) -> (r: String)
    ensures
        r@ == aliases_list(cmd.names@),
{
    let mut r = String::new();
    let n = cmd.names.len();
    if n <= 1 {
        return r;
    }
    for i in 1..n
        invariant
            n == cmd.names@.len(),
            r@ == aliases_list(cmd.names@.take(i as int)),
    {
        r.append("\n`");
        r.append(cmd.names[i].as_str());
        r.append("`");
        assert(cmd.names@.take(i + 1).drop_last() =~= cmd.names@.take(i as int));
    }
    assert(cmd.names@.take(n as int) =~= cmd.names@);
    r
}

/// The usage field of a command: `` `<prefix><name> <usage>` ``.
pub fn usage_text(prefix: &str, cmd: &CommandInfo) -> (r: String)
    requires
        cmd.names@.len() > 0,
    ensures
        r@ == "`"@ + prefix@ + cmd.names@[0]@ + " "@ + match cmd.usage {
            Some(u) => u@,
            None => "Sem uso informado"@,
        } + "`"@,
{
    let mut r = String::from_str("`");
    r.append(prefix);
    r.append(cmd.names[0].as_str());
    r.append(" ");
    match &cmd.usage {
        Some(u) => r.append(u.as_str()),
        None => r.append("Sem uso informado"),
    }
    r.append("`");
    r
}

/// The description of a command, or a note that it has none.
pub fn description_text(cmd: &CommandInfo) -> (r: String)
    ensures
        r@ == match cmd.desc {
            Some(d) => d@,
            None => "Nenhuma descrição informada"@,
        },
{
    match &cmd.desc {
        Some(d) => d.clone(),
        None => String::from_str("Nenhuma descrição informada"),
    }
}

/// The value of a decimal digit character.
pub open spec fn digit_value(c: char) -> nat {
    (c as nat - 48) as nat
}

/// `c` is an ASCII decimal digit.
pub open spec fn is_digit(c: char) -> bool {
    '0' <= c && c <= '9'
}

/// The number that a sequence of decimal digits writes.
pub open spec fn digits_value(s: Seq<char>) -> nat
    decreases s.len(),
{
    if s.len() == 0 {
        0
    } else {
        digits_value(s.drop_last()) * 10 + digit_value(s.last())
    }
}

/// The digits of a number text: what follows an optional leading `+`.
pub open spec fn unsigned_digits(s: Seq<char>) -> Seq<char> {
    if s.len() > 0 && s[0] == '+' {
        s.drop_first()
    } else {
        s
    }
}

/// The `u64` a text writes, as `u64::from_str` reads it: an optional `+`,
/// then at least one decimal digit, the value fitting in 64 bits.
pub open spec fn u64_of_text(s: Seq<char>) -> Option<u64> {
    let d = unsigned_digits(s);
    if d.len() > 0 && (forall|i: int| 0 <= i < d.len() ==> is_digit(#[trigger] d[i]))
        && digits_value(d) <= u64::MAX {
        Some(digits_value(d) as u64)
    } else {
        None
    }
}

proof fn digits_value_grows(s: Seq<char>, k: int)
    requires
        0 <= k <= s.len(),
        forall|i: int| 0 <= i < s.len() ==> is_digit(#[trigger] s[i]),
    ensures
        digits_value(s.take(k)) <= digits_value(s),
    decreases s.len() - k,
{
    if k < s.len() {
        digits_value_grows(s, k + 1);
        assert(s.take(k + 1).drop_last() =~= s.take(k));
    } else {
        assert(s.take(k) =~= s);
    }
}

/// The `u64` a text writes, read as `u64::from_str` reads it.
pub fn parse_u64(text: &str) -> (r: Option<u64>)
    ensures
        r == u64_of_text(text@),
{
    let all = crate::text::chars_of(text);
    let n = all.len();
    let start: usize = if n > 0 && all[0] == '+' { 1 } else { 0 };
    let ghost d = unsigned_digits(text@);
    assert(d =~= all@.skip(start as int));
    if start >= n {
        return None;
    }
    let mut value: u64 = 0;
    let mut i = start;
    while i < n
        invariant
            start <= i <= n,
            n == all@.len(),
            all@ == text@,
            d == unsigned_digits(text@),
            d == all@.skip(start as int),
            forall|k: int| 0 <= k < i - start ==> is_digit(#[trigger] d[k]),
            value as nat == digits_value(d.take(i - start)),
        decreases n - i,
    {
        let c = all[i];
        assert(d[i - start] == c);
        if c < '0' || c > '9' {
            assert(!is_digit(d[i - start]));
            return None;
        }
        let ghost prefix = d.take(i - start + 1);
        assert(prefix.drop_last() =~= d.take(i - start));
        assert(prefix.last() == c);
        assert(digits_value(prefix) == value * 10 + digit_value(c));
        let dv = (c as u32 - 48) as u64;
        assert(dv == digit_value(c));
        let next = match value.checked_mul(10) {
            Some(t) => t.checked_add(dv),
            None => None,
        };
        match next {
            Some(v) => {
                value = v;
            },
            None => {
                proof {
                    assert(digits_value(prefix) > u64::MAX);
                    if forall|k: int| 0 <= k < d.len() ==> is_digit(#[trigger] d[k]) {
                        digits_value_grows(d, i - start + 1);
                    }
                }
                return None;
            },
        }
        i = i + 1;
    }
    assert(d.take(n - start) =~= d);
    Some(value)
}

/// The first capture group of the leftmost match of `pattern` in `text`,
/// as the regular expression library finds it.
pub uninterp spec fn first_capture(pattern: Seq<char>, text: Seq<char>) -> Option<Seq<char>>;

/// The error type of the regular expression library, carried through unchanged.
#[verifier::external_type_specification]
#[verifier::external_body]
pub struct ExRegexError(regex::Error);

/// Compiles `pattern` with `regex::Regex::new` and takes the first capture
/// group of its leftmost match in `text` (`Regex::captures`, `Captures::get(1)`).
/// Claimed: when the pattern compiles, the text of the group is
/// `first_capture` of the arguments; and the channel-mention pattern, a valid
/// pattern far below the size limits, compiles (`Regex::new` fails only for an
/// invalid or oversized pattern).
#[verifier::external_body]
fn regex_first_capture(pattern: &str, text: &str) -> (r: Result<Option<String>, regex::Error>)
    ensures
        pattern@ == channel_mention_pattern() ==> r is Ok,
        r matches Ok(Some(c)) ==> first_capture(pattern@, text@) == Some(c@),
        r matches Ok(None) ==> first_capture(pattern@, text@) is None,
{
    let re = regex::Regex::new(pattern)?;
    Ok(re.captures(text).and_then(|c| c.get(1)).map(|m| m.as_str().to_string()))
}

/// A channel mention: `<#` and eighteen digits and `>`, the digits captured.
pub open spec fn channel_mention_pattern() -> Seq<char> {
    "<#(\\d{18})>"@
}

/// The next step of registering an application, after the user answered
/// where its events should go.
pub enum RegappStep {
    /// The user typed a command instead, or named no channel: stop.
    Stop,
    /// Create a webhook in this channel.
    CreateWebhook(u64),
    /// Use this webhook URL.
    UseUrl(String),
}

/// Why registering an application failed.
pub enum RegappError {
    /// The mentioned channel is not a valid id (its digits are not all ASCII).
    InvalidChannel,
}

/// Whether a reply continues the registration: a reply that starts with the
/// bot's command prefix is a command, and stops it.
pub fn continues_registration(reply: &str, prefix: &str) -> (r: bool)
    ensures
        r == !has_prefix(reply@, prefix@),
{
    !starts_with(reply, prefix)
}

/// The step that the webhook answer of a registration leads to: `create`
/// followed by a channel mention creates a webhook there; any other answer
/// is taken as the webhook URL.
pub fn webhook_step(reply: &str, prefix: &str) -> (r: Result<RegappStep, RegappError>)
    ensures
        has_prefix(reply@, prefix@) ==> r matches Ok(RegappStep::Stop),
        !has_prefix(reply@, prefix@) && !has_prefix(reply@, "create "@) ==> (r matches Ok(RegappStep::UseUrl(u)) && u@ == reply@),
        !has_prefix(reply@, prefix@) && has_prefix(reply@, "create "@) ==> match r {
            Ok(RegappStep::Stop) => first_capture(channel_mention_pattern(), reply@) is None,
            Ok(RegappStep::CreateWebhook(id)) => first_capture(channel_mention_pattern(), reply@) matches Some(c)
                && u64_of_text(c) == Some(id),
            Ok(RegappStep::UseUrl(_)) => false,
            Err(RegappError::InvalidChannel) => first_capture(channel_mention_pattern(), reply@) matches Some(c)
                && u64_of_text(c) is None,
        },
{
    if starts_with(reply, prefix) {
        return Ok(RegappStep::Stop);
    }
    if starts_with(reply, "create ") {
        let pattern = "<#(\\d{18})>";
        proof {
            assert(pattern@ == channel_mention_pattern());
        }
        match regex_first_capture(pattern, reply) {
            Err(_) => {
                proof {
                    assert(false);
                }
                Err(RegappError::InvalidChannel)
            },
            Ok(None) => Ok(RegappStep::Stop),
            Ok(Some(channel)) => match parse_u64(channel.as_str()) {
                Some(id) => Ok(RegappStep::CreateWebhook(id)),
                None => Err(RegappError::InvalidChannel),
            },
        }
    } else {
        Ok(RegappStep::UseUrl(String::from_str(reply)))
    }
}

/// The name of the webhook created for an application.
pub fn webhook_name(app_name: &str) -> (r: String)
    ensures
        r@ == app_name@ + " alerts!"@,
{
    let mut r = String::from_str(app_name);
    r.append(" alerts!");
    r
}

/// What the bot's owner is told of a failed command, given the command's
/// name and the debug text of the error; nothing for an end-of-stream error.
pub fn failure_description(cmd_name: Option<&str>, error_debug: &str) -> (r: Option<String>)
    ensures
        error_debug@ == "Eos"@ ==> r is None,
        error_debug@ != "Eos"@ ==> (r matches Some(t) && t@ == "```"@ + match cmd_name {
            Some(c) => c@,
            None => "NaC"@,
        } + ": "@ + error_debug@ + "```"@),
{
    if same_text(error_debug, "Eos") {
        return None;
    }
    let mut r = String::from_str("```");
    match cmd_name {
        Some(c) => r.append(c),
        None => r.append("NaC"),
    }
    r.append(": ");
    r.append(error_debug);
    r.append("```");
    Some(r)
}


/// The JSON message that forwards an event to its application's webhook: an
/// embed with the application's name as author, `<severity>: <title>` as
/// title, the message and the stack trace in code blocks, and the color.
pub open spec fn webhook_payload_text(
    app_name: Seq<char>,
    severity_name: Seq<char>,
    title: Seq<char>,
    message: Seq<char>,
    color: u32,
    stacktrace: Seq<char>,
) -> Seq<char> {
    "\n                            {\n                                \"embeds\": [\n\n                                    {\n                                        \"author\": {\n                                            \"name\": \""@ + app_name + "\"\n                                        },\n                                        \"title\": \""@ + severity_name + ": "@ + title + "\",\n                                        \"description\": \"```"@ + message + "```\",\n                                        \"color\": "@ + decimal(color as nat) + ",\n                                        \"fields\": [\n                                            {\n                                                \"name\": \"Stacktrace:\",\n                                                \"value\": \"```"@ + stacktrace + "```\",\n                                                \"inline\": true\n                                            }\n                                        ]\n                                    }\n                                ]\n                            }\n                        "@
}

/// A line of the event listing: the event's id, severity name and title.
pub struct EventLine {
    pub id: u64,
    pub severity_name: String,
    pub title: String,
}

/// The event lines, each on a line of its own: `<id>: (<severity>): <title>`.
pub open spec fn event_lines_text(lines: Seq<EventLine>) -> Seq<char>
    decreases lines.len(),
{
    if lines.len() == 0 {
        Seq::empty()
    } else {
        event_lines_text(lines.drop_last()) + "\n"@ + decimal(lines.last().id as nat) + ": ("@
            + lines.last().severity_name@ + "): "@ + lines.last().title@
    }
}

/// The body of the latest events listing; a note when there are none.
pub fn events_list_text(lines: &Vec<EventLine>) -> (r: String)
    ensures
        lines@.len() == 0 ==> r@ == "Não existem eventos para esse app."@,
        lines@.len() > 0 ==> r@ == event_lines_text(lines@),
{
    if lines.len() == 0 {
        return String::from_str("Não existem eventos para esse app.");
    }
    let mut r = String::new();
    let n = lines.len();
    for i in 0..n
        invariant
            n == lines@.len(),
            r@ == event_lines_text(lines@.take(i as int)),
    {
        let id_text = decimal_text(lines[i].id);
        r.append("\n");
        r.append(id_text.as_str());
        r.append(": (");
        r.append(lines[i].severity_name.as_str());
        r.append("): ");
        r.append(lines[i].title.as_str());
        assert(lines@.take(i + 1).drop_last() =~= lines@.take(i as int));
    }
    assert(lines@.take(n as int) =~= lines@);
    r
}

/// The listing line of one event: `\n<id>: (<severity>): <title>`.
pub open spec fn event_line_of(l: EventLine) -> Seq<char> {
    "\n"@ + decimal(l.id as nat) + ": ("@ + l.severity_name@ + "): "@ + l.title@
}

proof fn event_lines_push(s: Seq<EventLine>, l: EventLine)
    ensures
        event_lines_text(s.push(l)) == event_lines_text(s) + event_line_of(l),
{
    assert(s.push(l).drop_last() =~= s);
    assert(event_lines_text(s.push(l)) =~= event_lines_text(s) + event_line_of(l));
}

proof fn event_lines_concatenate(a: Seq<EventLine>, b: Seq<EventLine>)
    ensures
        event_lines_text(a + b) == event_lines_text(a) + event_lines_text(b),
    decreases b.len(),
{
    if b.len() == 0 {
        assert(a + b =~= a);
        assert(event_lines_text(a) + event_lines_text(b) =~= event_lines_text(a));
    } else {
        event_lines_concatenate(a, b.drop_last());
        event_lines_push(a + b.drop_last(), b.last());
        event_lines_push(b.drop_last(), b.last());
        assert((a + b.drop_last()).push(b.last()) =~= a + b);
        assert(b.drop_last().push(b.last()) =~= b);
        assert(event_lines_text(a) + (event_lines_text(b.drop_last()) + event_line_of(b.last()))
            =~= (event_lines_text(a) + event_lines_text(b.drop_last())) + event_line_of(b.last()));
    }
}

proof fn event_line_in_its_place(a: Seq<EventLine>, i: int)
    requires
        0 <= i < a.len(),
    ensures
        event_lines_text(a) == event_lines_text(a.take(i)) + event_line_of(a[i]) + event_lines_text(a.skip(i + 1)),
{
    event_lines_push(a.take(i), a[i]);
    event_lines_concatenate(a.take(i + 1), a.skip(i + 1));
    assert(a.take(i).push(a[i]) =~= a.take(i + 1));
    assert(a.take(i + 1) + a.skip(i + 1) =~= a);
}

/// The event listing has one line per event given, in order and with none
/// left out: no events give no text, one event gives its own line, and the
/// listing of two runs of events one after the other is the listing of the
/// first followed by that of the second; so the `i`-th event's line stands
/// between the listing of those before it and of those after it.
pub proof fn event_listing_has_a_line_per_event(a: Seq<EventLine>, b: Seq<EventLine>, l: EventLine)
    ensures
        event_lines_text(Seq::empty()) == Seq::<char>::empty(),
        event_lines_text(seq![l]) == event_line_of(l),
        event_lines_text(a + b) == event_lines_text(a) + event_lines_text(b),
        forall|i: int| 0 <= i < a.len() ==> event_lines_text(a) == event_lines_text(a.take(i))
            + event_line_of(#[trigger] a[i]) + event_lines_text(a.skip(i + 1)),
{
    event_lines_push(Seq::empty(), l);
    assert(Seq::<EventLine>::empty().push(l) =~= seq![l]);
    assert(Seq::<char>::empty() + event_line_of(l) =~= event_line_of(l));
    event_lines_concatenate(a, b);
    assert forall|i: int| 0 <= i < a.len() implies event_lines_text(a) == event_lines_text(a.take(i))
        + event_line_of(#[trigger] a[i]) + event_lines_text(a.skip(i + 1)) by {
        event_line_in_its_place(a, i);
    }
}

proof fn decimal_is_digits(n: nat)
    ensures
        decimal(n).len() > 0,
        forall|i: int| 0 <= i < decimal(n).len() ==> is_digit(#[trigger] decimal(n)[i]),
        digits_value(decimal(n)) == n,
    decreases n,
{
    if n < 10 {
        let c = digit_char(n);
        assert(c as nat == n + 48);
        assert(seq![c].drop_last() =~= Seq::<char>::empty());
        assert(digits_value(Seq::<char>::empty()) == 0);
        assert(digit_value(c) == n);
        assert(digits_value(seq![c]) == n);
    } else {
        decimal_is_digits(n / 10);
        let d = decimal(n);
        assert(d.drop_last() =~= decimal(n / 10));
        let c = digit_char(n % 10);
        assert(c as nat == n % 10 + 48);
        assert(d.last() == c);
        assert(digit_value(c) == n % 10);
        assert((n / 10) * 10 + n % 10 == n);
        assert forall|i: int| 0 <= i < d.len() implies is_digit(#[trigger] d[i]) by {
            if i < d.len() - 1 {
                assert(d[i] == decimal(n / 10)[i]);
            }
        }
    }
}

/// Reading back the decimal text of a number gives the number: the bot's
/// mention forms and the channel ids it parses use the same notation.
pub proof fn decimal_text_reads_back(n: u64)
    ensures
        u64_of_text(decimal(n as nat)) == Some(n),
{
    decimal_is_digits(n as nat);
    let d = decimal(n as nat);
    assert(unsigned_digits(d) == d);
}

/// The command group of the event tracker, as the help lists it.
pub struct AppEventTracker;

impl AppEventTracker {
    /// The group's name and its commands with their aliases, descriptions and
    /// usages.
    pub fn group() -> (g: GroupInfo)
        ensures
            g.name@ == "Rastreador de Eventos 🖥️"@,
            g.commands@.len() == 3,
            all_named(g.commands@),
            g.commands@[0].names@.map_values(|n: String| n@) == seq!["regapp"@, "addapp"@],
            g.commands@[1].names@.map_values(|n: String| n@) == seq!["evlist"@, "listev"@, "lsev"@],
            g.commands@[2].names@.map_values(|n: String| n@) == seq!["evdet"@, "detev"@, "eventdetail"@],
            g.commands@[0].desc matches Some(d) && d@ == "Registra uma nova aplicação para receber o rastreamento de eventos."@,
            g.commands@[1].desc matches Some(d) && d@ == "Lista os ultimos 25 eventos de uma aplicação."@,
            g.commands@[2].desc matches Some(d) && d@ == "Envia os detalhes sobre um evento em especifico."@,
            g.commands@[0].usage matches Some(u) && u@ == ""@,
            g.commands@[1].usage matches Some(u) && u@ == "{id da aplicação}"@,
            g.commands@[2].usage matches Some(u) && u@ == "{id do evento}"@,
    {
        let regapp = CommandInfo {
            names: vec![String::from_str("regapp"), String::from_str("addapp")],
            desc: Some(String::from_str("Registra uma nova aplicação para receber o rastreamento de eventos.")),
            usage: Some(String::from_str("")),
        };
        let evlist = CommandInfo {
            names: vec![String::from_str("evlist"), String::from_str("listev"), String::from_str("lsev")],
            desc: Some(String::from_str("Lista os ultimos 25 eventos de uma aplicação.")),
            usage: Some(String::from_str("{id da aplicação}")),
        };
        let evdet = CommandInfo {
            names: vec![String::from_str("evdet"), String::from_str("detev"), String::from_str("eventdetail")],
            desc: Some(String::from_str("Envia os detalhes sobre um evento em especifico.")),
            usage: Some(String::from_str("{id do evento}")),
        };
        let g = GroupInfo { name: String::from_str("Rastreador de Eventos 🖥️"), commands: vec![regapp, evlist, evdet] };
        assert(g.commands@[0].names@.map_values(|n: String| n@) =~= seq!["regapp"@, "addapp"@]);
        assert(g.commands@[1].names@.map_values(|n: String| n@) =~= seq!["evlist"@, "listev"@, "lsev"@]);
        assert(g.commands@[2].names@.map_values(|n: String| n@) =~= seq!["evdet"@, "detev"@, "eventdetail"@]);
        g
    }
}

} // verus!
