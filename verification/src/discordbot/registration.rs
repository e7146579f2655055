//! The `regapp` dialogue, which registers an application for event tracking:
//! the decisions as a step function from the dialogue's state and what just
//! happened to its next state and the action to carry out.
use vstd::prelude::*;
use crate::discordbot::{
    channel_mention_pattern, first_capture, u64_of_text, webhook_name, webhook_step, RegappError, RegappStep,
};
use crate::discordbot::replies::{field_is, plain_embed, BotEmbed, BotMessage, EmbedColor};
use crate::discordbot::FieldEmbed;
use crate::mysql_db::AppTable;
use crate::text::{decimal, decimal_text, has_prefix, starts_with};

verus! {

/// Where a registration stands.
pub enum RegappState {
    /// Nothing was asked yet.
    Start,
    /// The application's name was asked for.
    AwaitingName,
    /// The webhook was asked for the application `name`.
    AwaitingWebhook { name: String },
    /// A webhook is being created for the application `name`.
    CreatingWebhook { name: String },
    /// The application is being stored.
    Inserting,
    /// The token of the stored application `app` is being sent to the user.
    DeliveringToken { app: AppTable },
    /// The user was told to open their direct messages, to send them the
    /// token of `app` again.
    NotifyingBlocked { app: AppTable },
    /// The confirmation is being posted.
    Confirming,
    /// The registration is over.
    Finished,
}

/// What happened since the last action. `E` is the error of the outside work.
pub enum RegappEvent<E> {
    /// The user asked for a registration.
    Begin,
    /// The question was posted (or posting failed) and the user's answer came
    /// within a minute (`None`: it did not).
    Answer(Result<Option<String>, E>),
    /// The webhook was created, with this URL, or creating it failed.
    WebhookCreated(Result<String, E>),
    /// The application was stored, or storing it failed.
    Inserted(Result<AppTable, E>),
    /// Whether the direct message reached the user.
    DmDelivered(bool),
    /// The notice was posted, reacted to and the user reacted, or one of
    /// these failed.
    Notified(Result<(), E>),
    /// The confirmation was posted, or posting it failed.
    Confirmed(Result<(), E>),
}

/// Why a registration failed.
pub enum RegappFailure<E> {
    /// The outside work failed.
    Outside(E),
    /// The user's answer could not be used.
    Refused(RegappError),
}

/// What to do next.
pub enum RegappAction<E> {
    /// Post this question and wait up to a minute for the user's answer.
    Ask(BotMessage),
    /// Create a webhook with this name in this channel.
    CreateWebhook { channel: u64, name: String },
    /// Store an application with this name, owner and webhook URL.
    Insert { name: String, owner: u64, webhook_url: String },
    /// Send the user this direct message.
    SendDm(BotEmbed),
    /// Post this notice, react to it with `reaction` and wait for the user's reaction.
    NotifyDmBlocked { notice: BotMessage, reaction: char },
    /// Post this confirmation.
    Confirm(BotMessage),
    /// The registration ends with this result.
    Finish(Result<(), RegappFailure<E>>),
}

/// The title every message of the dialogue carries.
pub open spec fn regapp_title() -> Seq<char> {
    "Adicionar nova aplicação ao Rastreador de Eventos:"@
}

/// The first question: the application's name, in reply to the request.
pub open spec fn is_name_question(m: BotMessage) -> bool {
    &&& m.reference
    &&& plain_embed(m.embed, EmbedColor::Violet, Some(regapp_title()),
        Some("Infome o nome da sua aplicação ou ignore essa mensagem:"@), None)
    &&& m.embed.fields@.len() == 0
}

/// The second question: where the events should go.
pub open spec fn is_webhook_question(m: BotMessage) -> bool {
    &&& !m.reference
    &&& plain_embed(m.embed, EmbedColor::Violet, Some(regapp_title()),
        Some("Envie a url de um webhook customizado, ou digite `create #channel` para o bot criar automaticamente um webhook vinculado a um canal."@),
        None)
    &&& m.embed.fields@.len() == 0
}

/// The direct message with the stored application's id, name and token.
pub open spec fn is_token_message(e: BotEmbed, app: AppTable) -> bool {
    &&& plain_embed(e, EmbedColor::Violet, Some(regapp_title()),
        Some("Sua aplicação foi cadastrada com sucesso, abaixo as informações sobre seu cadastro:"@), None)
    &&& e.fields@.len() == 3
    &&& field_is(e.fields@[0], "Identificador:"@, decimal(app.id as nat), true)
    &&& field_is(e.fields@[1], "Nome da Aplicação:"@, app.name@, true)
    &&& field_is(e.fields@[2], "Token da Aplicação:"@, "||"@ + app.token_app@ + "||"@, false)
}

/// The notice that the user's direct messages are closed.
pub open spec fn is_blocked_notice(m: BotMessage) -> bool {
    &&& !m.reference
    &&& plain_embed(m.embed, EmbedColor::Red, None,
        Some("Sua dm esta bloqueada, favor libere sua dm e pressione o ✅ abaixo."@), None)
    &&& m.embed.fields@.len() == 0
}

/// The confirmation posted once the token was delivered.
pub open spec fn is_confirmation(m: BotMessage) -> bool {
    &&& !m.reference
    &&& plain_embed(m.embed, EmbedColor::DarkGreen, None,
        Some("Aplicação cadastrada com sucesso.\n\nDados especiais foram mandado para seu DM."@), None)
    &&& m.embed.fields@.len() == 0
}

/// The events each state waits for.
pub open spec fn awaits<E>(state: RegappState, event: RegappEvent<E>) -> bool {
    match state {
        RegappState::Start => event is Begin,
        RegappState::AwaitingName => event is Answer,
        RegappState::AwaitingWebhook { .. } => event is Answer,
        RegappState::CreatingWebhook { .. } => event is WebhookCreated,
        RegappState::Inserting => event is Inserted,
        RegappState::DeliveringToken { .. } => event is DmDelivered,
        RegappState::NotifyingBlocked { .. } => event is Notified,
        RegappState::Confirming => event is Confirmed,
        RegappState::Finished => false,
    }
}

/// The application was already handed over to be stored, or the
/// registration is over.
pub open spec fn past_store(state: RegappState) -> bool {
    ||| state is Inserting
    ||| state is DeliveringToken
    ||| state is NotifyingBlocked
    ||| state is Confirming
    ||| state is Finished
}

/// The registration ends, successfully, with nothing stored.
pub open spec fn ends_quietly<E>(r: (RegappState, RegappAction<E>)) -> bool {
    &&& r.0 is Finished
    &&& r.1 matches RegappAction::Finish(Ok(()))
}

/// The registration ends with this outside error.
pub open spec fn ends_with<E>(r: (RegappState, RegappAction<E>), e: E) -> bool {
    &&& r.0 is Finished
    &&& r.1 matches RegappAction::Finish(Err(RegappFailure::Outside(x))) && x == e
}

/// The application is stored with this name, the user as owner and this URL.
pub open spec fn stores<E>(r: (RegappState, RegappAction<E>), name: Seq<char>, owner: u64, url: Seq<char>) -> bool {
    &&& r.0 is Inserting
    &&& r.1 matches RegappAction::Insert { name: n, owner: o, webhook_url: u } && n@ == name && o == owner && u@ == url
}

fn common_embed(description: &str) -> (e: BotEmbed)
    ensures
        plain_embed(e, EmbedColor::Violet, Some(regapp_title()), Some(description@), None),
        e.fields@.len() == 0,
{
    BotEmbed {
        color: EmbedColor::Violet,
        title: Some(String::from_str("Adicionar nova aplicação ao Rastreador de Eventos:")),
        description: Some(String::from_str(description)),
        fields: Vec::new(),
        footer: None,
    }
}

fn plain_notice(color: EmbedColor, description: &str) -> (m: BotMessage)
    ensures
        !m.reference,
        plain_embed(m.embed, color, None, Some(description@), None),
        m.embed.fields@.len() == 0,
{
    BotMessage {
        reference: false,
        embed: BotEmbed { color, title: None, description: Some(String::from_str(description)), fields: Vec::new(), footer: None },
    }
}

fn token_message(app: &AppTable) -> (e: BotEmbed)
    ensures
        is_token_message(e, *app),
{
    let mut e = common_embed("Sua aplicação foi cadastrada com sucesso, abaixo as informações sobre seu cadastro:");
    let mut token = String::from_str("||");
    token.append(app.token_app.as_str());
    token.append("||");
    e.fields.push(FieldEmbed { name: String::from_str("Identificador:"), value: decimal_text(app.id), inline: true });
    e.fields.push(FieldEmbed { name: String::from_str("Nome da Aplicação:"), value: app.name.clone(), inline: true });
    e.fields.push(FieldEmbed { name: String::from_str("Token da Aplicação:"), value: token, inline: false });
    e
}

/// One step of the registration of an application by the user `owner`, with
/// the bot's command prefix `prefix`: a missing answer or one that starts with
/// the prefix ends it quietly; the second answer is either `create` and a
/// channel mention, for which a webhook named after the application is
/// created there, or the webhook URL itself; then the application is stored
/// once, its token is sent to the user privately (again, after a notice,
/// while their direct messages are closed) and the registration is confirmed.
/// Any failed outside step ends the registration with its error. The
/// application is handed over to be stored at most once: once it was, no
/// later step asks for it again.
pub fn regapp_step<E>(state: RegappState, event: RegappEvent<E>, prefix: &str, owner: u64) -> (r: (RegappState, RegappAction<E>))
    requires
        awaits(state, event),
    ensures
        match (state, event) {
            (RegappState::Start, _) => r.0 is AwaitingName && (r.1 matches RegappAction::Ask(m) && is_name_question(m)),
            (RegappState::AwaitingName, RegappEvent::Answer(answer)) => match answer {
                Err(e) => ends_with(r, e),
                Ok(None) => ends_quietly(r),
                Ok(Some(n)) => if has_prefix(n@, prefix@) {
                    ends_quietly(r)
                } else {
                    (r.0 matches RegappState::AwaitingWebhook { name } && name == n)
                        && (r.1 matches RegappAction::Ask(m) && is_webhook_question(m))
                },
            },
            (RegappState::AwaitingWebhook { name }, RegappEvent::Answer(answer)) => match answer {
                Err(e) => ends_with(r, e),
                Ok(None) => ends_quietly(r),
                Ok(Some(w)) => if has_prefix(w@, prefix@) {
                    ends_quietly(r)
                } else if !has_prefix(w@, "create "@) {
                    stores(r, name@, owner, w@)
                } else {
                    match first_capture(channel_mention_pattern(), w@) {
                        None => ends_quietly(r),
                        Some(c) => match u64_of_text(c) {
                            Some(channel) => (r.0 matches RegappState::CreatingWebhook { name: n } && n == name)
                                && (r.1 matches RegappAction::CreateWebhook { channel: ch, name: hook }
                                    && ch == channel && hook@ == name@ + " alerts!"@),
                            None => r.0 is Finished
                                && (r.1 matches RegappAction::Finish(Err(RegappFailure::Refused(RegappError::InvalidChannel)))),
                        },
                    }
                },
            },
            (RegappState::CreatingWebhook { name }, RegappEvent::WebhookCreated(created)) => match created {
                Ok(url) => stores(r, name@, owner, url@),
                Err(e) => ends_with(r, e),
            },
            (RegappState::Inserting, RegappEvent::Inserted(inserted)) => match inserted {
                Ok(app) => (r.0 matches RegappState::DeliveringToken { app: a } && a == app)
                    && (r.1 matches RegappAction::SendDm(d) && is_token_message(d, app)),
                Err(e) => ends_with(r, e),
            },
            (RegappState::DeliveringToken { app }, RegappEvent::DmDelivered(delivered)) => if delivered {
                r.0 is Confirming && (r.1 matches RegappAction::Confirm(m) && is_confirmation(m))
            } else {
                (r.0 matches RegappState::NotifyingBlocked { app: a } && a == app)
                    && (r.1 matches RegappAction::NotifyDmBlocked { notice, reaction }
                        && is_blocked_notice(notice) && reaction == '✅')
            },
            (RegappState::NotifyingBlocked { app }, RegappEvent::Notified(notified)) => match notified {
                Ok(()) => (r.0 matches RegappState::DeliveringToken { app: a } && a == app)
                    && (r.1 matches RegappAction::SendDm(d) && is_token_message(d, app)),
                Err(e) => ends_with(r, e),
            },
            (RegappState::Confirming, RegappEvent::Confirmed(confirmed)) => match confirmed {
                Ok(()) => ends_quietly(r),
                Err(e) => ends_with(r, e),
            },
            _ => false,
        },
        past_store(state) ==> past_store(r.0) && !(r.1 is Insert),
        r.1 is Insert ==> r.0 is Inserting,
{
    match state {
        RegappState::Start => {
            let question = common_embed("Infome o nome da sua aplicação ou ignore essa mensagem:");
            (RegappState::AwaitingName, RegappAction::Ask(BotMessage { reference: true, embed: question }))
        },
        RegappState::AwaitingName => match event {
            RegappEvent::Answer(Err(e)) => (RegappState::Finished, RegappAction::Finish(Err(RegappFailure::Outside(e)))),
            RegappEvent::Answer(Ok(None)) => (RegappState::Finished, RegappAction::Finish(Ok(()))),
            RegappEvent::Answer(Ok(Some(n))) => {
                if starts_with(n.as_str(), prefix) {
                    (RegappState::Finished, RegappAction::Finish(Ok(())))
                } else {
                    let question = common_embed(
                        "Envie a url de um webhook customizado, ou digite `create #channel` para o bot criar automaticamente um webhook vinculado a um canal.",
                    );
                    (RegappState::AwaitingWebhook { name: n }, RegappAction::Ask(BotMessage { reference: false, embed: question }))
                }
            },
            _ => {
                proof {
                    assert(false);
                }
                (RegappState::Finished, RegappAction::Finish(Ok(())))
            },
        },
        RegappState::AwaitingWebhook { name } => match event {
            RegappEvent::Answer(Err(e)) => (RegappState::Finished, RegappAction::Finish(Err(RegappFailure::Outside(e)))),
            RegappEvent::Answer(Ok(None)) => (RegappState::Finished, RegappAction::Finish(Ok(()))),
            RegappEvent::Answer(Ok(Some(w))) => match webhook_step(w.as_str(), prefix) {
                Ok(RegappStep::Stop) => (RegappState::Finished, RegappAction::Finish(Ok(()))),
                Ok(RegappStep::UseUrl(url)) => (RegappState::Inserting, RegappAction::Insert { name, owner, webhook_url: url }),
                Ok(RegappStep::CreateWebhook(channel)) => {
                    let hook = webhook_name(name.as_str());
                    (RegappState::CreatingWebhook { name }, RegappAction::CreateWebhook { channel, name: hook })
                },
                Err(e) => (RegappState::Finished, RegappAction::Finish(Err(RegappFailure::Refused(e)))),
            },
            _ => {
                proof {
                    assert(false);
                }
                (RegappState::Finished, RegappAction::Finish(Ok(())))
            },
        },
        RegappState::CreatingWebhook { name } => match event {
            RegappEvent::WebhookCreated(Ok(url)) => (RegappState::Inserting, RegappAction::Insert { name, owner, webhook_url: url }),
            RegappEvent::WebhookCreated(Err(e)) => (RegappState::Finished, RegappAction::Finish(Err(RegappFailure::Outside(e)))),
            _ => {
                proof {
                    assert(false);
                }
                (RegappState::Finished, RegappAction::Finish(Ok(())))
            },
        },
        RegappState::Inserting => match event {
            RegappEvent::Inserted(Ok(app)) => {
                let dm = token_message(&app);
                (RegappState::DeliveringToken { app }, RegappAction::SendDm(dm))
            },
            RegappEvent::Inserted(Err(e)) => (RegappState::Finished, RegappAction::Finish(Err(RegappFailure::Outside(e)))),
            _ => {
                proof {
                    assert(false);
                }
                (RegappState::Finished, RegappAction::Finish(Ok(())))
            },
        },
        RegappState::DeliveringToken { app } => match event {
            RegappEvent::DmDelivered(true) => {
                let confirmation = plain_notice(
                    EmbedColor::DarkGreen,
                    "Aplicação cadastrada com sucesso.\n\nDados especiais foram mandado para seu DM.",
                );
                (RegappState::Confirming, RegappAction::Confirm(confirmation))
            },
            RegappEvent::DmDelivered(false) => {
                let notice = plain_notice(EmbedColor::Red, "Sua dm esta bloqueada, favor libere sua dm e pressione o ✅ abaixo.");
                (RegappState::NotifyingBlocked { app }, RegappAction::NotifyDmBlocked { notice, reaction: '✅' })
            },
            _ => {
                proof {
                    assert(false);
                }
                (RegappState::Finished, RegappAction::Finish(Ok(())))
            },
        },
        RegappState::NotifyingBlocked { app } => match event {
            RegappEvent::Notified(Ok(())) => {
                let dm = token_message(&app);
                (RegappState::DeliveringToken { app }, RegappAction::SendDm(dm))
            },
            RegappEvent::Notified(Err(e)) => (RegappState::Finished, RegappAction::Finish(Err(RegappFailure::Outside(e)))),
            _ => {
                proof {
                    assert(false);
                }
                (RegappState::Finished, RegappAction::Finish(Ok(())))
            },
        },
        RegappState::Confirming => match event {
            RegappEvent::Confirmed(Ok(())) => (RegappState::Finished, RegappAction::Finish(Ok(()))),
            RegappEvent::Confirmed(Err(e)) => (RegappState::Finished, RegappAction::Finish(Err(RegappFailure::Outside(e)))),
            _ => {
                proof {
                    assert(false);
                }
                (RegappState::Finished, RegappAction::Finish(Ok(())))
            },
        },
        RegappState::Finished => {
            proof {
                assert(false);
            }
            (RegappState::Finished, RegappAction::Finish(Ok(())))
        },
    }
}

} // verus!
