//! The mail side of the service: choosing how to reach the SMTP server,
//! setting up the transport, and composing the e-mail that carries a code.
//! Sending the composed e-mail is left to the caller.
use vstd::prelude::*;
use vstd::string::*;
use crate::config::Config;
use crate::error::AppError;

verus! {

#[verifier::external_type_specification]
#[verifier::external_body]
pub struct ExSmtpTransport(lettre::SmtpTransport);

#[verifier::external_type_specification]
#[verifier::external_body]
pub struct ExSmtpTransportBuilder(lettre::transport::smtp::SmtpTransportBuilder);

#[verifier::external_type_specification]
#[verifier::external_body]
pub struct ExSmtpError(lettre::transport::smtp::Error);

#[verifier::external_type_specification]
#[verifier::external_body]
pub struct ExTlsParameters(lettre::transport::smtp::client::TlsParameters);

#[verifier::external_type_specification]
#[verifier::external_body]
pub struct ExMailbox(lettre::message::Mailbox);

#[verifier::external_type_specification]
#[verifier::external_body]
pub struct ExAddressError(lettre::address::AddressError);

#[verifier::external_type_specification]
#[verifier::external_body]
pub struct ExMessage(lettre::Message);

/// How the connection to the SMTP server is secured.
pub enum TlsMode {
    /// Plain text.
    Plain,
    /// TLS from the start (SMTPS).
    Wrapper,
    /// Plain text upgraded with STARTTLS, which must succeed.
    Required,
}

/// The security of the connection: none unless TLS is asked for; TLS from
/// the start on port 465; STARTTLS otherwise.
pub open spec fn tls_mode_for(use_tls: bool, port: u16) -> TlsMode {
    if !use_tls {
        TlsMode::Plain
    } else if port == 465 {
        TlsMode::Wrapper
    } else {
        TlsMode::Required
    }
}

/// The security of the connection for the given settings.
pub fn tls_mode(use_tls: bool, port: u16) -> (mode: TlsMode)
    ensures
        mode == tls_mode_for(use_tls, port),
{
    if !use_tls {
        TlsMode::Plain
    } else if port == 465 {
        TlsMode::Wrapper
    } else {
        TlsMode::Required
    }
}

/// TLS is used exactly when it is asked for: plain text without it, TLS from
/// the start on port 465, and STARTTLS, which must succeed, on every other
/// port.
pub proof fn law_tls_mode_choice(use_tls: bool, port: u16)
    ensures
        !use_tls ==> tls_mode_for(use_tls, port) is Plain,
        use_tls && port == 465 ==> tls_mode_for(use_tls, port) is Wrapper,
        use_tls && port != 465 ==> tls_mode_for(use_tls, port) is Required,
{
}

/// Whether the server is logged in to: only when a user name is set.
pub open spec fn uses_credentials(user: Seq<char>) -> bool {
    user.len() != 0
}

/// The security of the connection as handed to the transport, with the
/// host name that the server's certificate is checked against.
pub enum TlsChoice {
    Plain,
    Wrapper { domain: String },
    Required { domain: String },
}

/// The security of the connection, with the host name as a character
/// sequence.
pub enum TlsChoiceView {
    Plain,
    Wrapper { domain: Seq<char> },
    Required { domain: Seq<char> },
}

impl View for TlsChoice {
    type V = TlsChoiceView;

    open spec fn view(&self) -> TlsChoiceView {
        match self {
            TlsChoice::Plain => TlsChoiceView::Plain,
            TlsChoice::Wrapper { domain } => TlsChoiceView::Wrapper { domain: domain@ },
            TlsChoice::Required { domain } => TlsChoiceView::Required { domain: domain@ },
        }
    }
}

/// What the SMTP transport was set up with: the server's host and port, the
/// security of the connection, and the user name and password it logs in
/// with, if any.
pub struct SmtpSettings {
    pub host: String,
    pub port: u16,
    pub tls: TlsChoice,
    pub credentials: Option<(String, String)>,
}

/// The settings of the SMTP transport, with their texts as character
/// sequences.
pub struct SmtpSettingsView {
    pub host: Seq<char>,
    pub port: u16,
    pub tls: TlsChoiceView,
    pub credentials: Option<(Seq<char>, Seq<char>)>,
}

impl View for SmtpSettings {
    type V = SmtpSettingsView;

    open spec fn view(&self) -> SmtpSettingsView {
        SmtpSettingsView {
            host: self.host@,
            port: self.port,
            tls: self.tls@,
            credentials: match self.credentials {
                Some((user, password)) => Some((user@, password@)),
                None => None,
            },
        }
    }
}

/// The settings that the configuration asks for: the configured host and
/// port, secured as `tls_mode_for(config.smtp_use_tls, config.smtp_port)`
/// says with the host's name checked, and logged in with the configured
/// user and password exactly when a user name is set.
pub open spec fn settings_for(config: Config) -> SmtpSettingsView {
    SmtpSettingsView {
        host: config.smtp_host@,
        port: config.smtp_port,
        tls: match tls_mode_for(config.smtp_use_tls, config.smtp_port) {
            TlsMode::Plain => TlsChoiceView::Plain,
            TlsMode::Wrapper => TlsChoiceView::Wrapper { domain: config.smtp_host@ },
            TlsMode::Required => TlsChoiceView::Required { domain: config.smtp_host@ },
        },
        credentials: if uses_credentials(config.smtp_user@) {
            Some((config.smtp_user@, config.smtp_password@))
        } else {
            None
        },
    }
}

/// The transport that the configuration asks for reaches the configured
/// host on the configured port; without TLS asked for it is plain text;
/// with TLS it checks the host's name, from the start on port 465 and by
/// STARTTLS on every other port; it logs in with the configured user and
/// password exactly when the user name is not empty.
pub proof fn law_settings_for_configuration(config: Config)
    ensures
        settings_for(config).host == config.smtp_host@,
        settings_for(config).port == config.smtp_port,
        !config.smtp_use_tls ==> settings_for(config).tls == TlsChoiceView::Plain,
        config.smtp_use_tls && config.smtp_port == 465
            ==> settings_for(config).tls == (TlsChoiceView::Wrapper { domain: config.smtp_host@ }),
        config.smtp_use_tls && config.smtp_port != 465
            ==> settings_for(config).tls == (TlsChoiceView::Required { domain: config.smtp_host@ }),
        config.smtp_user@.len() > 0 ==> settings_for(config).credentials == Some(
            (config.smtp_user@, config.smtp_password@),
        ),
        config.smtp_user@.len() == 0 ==> settings_for(config).credentials is None,
{
}

/// The settings of a relay to `host` as `lettre` makes it: port 465, TLS
/// from the start with the host's name checked, no login.
pub open spec fn relay_settings(host: Seq<char>) -> SmtpSettingsView {
    SmtpSettingsView {
        host,
        port: 465,
        tls: TlsChoiceView::Wrapper { domain: host },
        credentials: None,
    }
}

/// A transport builder of `lettre`, with the settings handed to it so far.
pub struct SmtpRelay {
    builder: lettre::transport::smtp::SmtpTransportBuilder,
    settings: SmtpSettings,
}

impl View for SmtpRelay {
    type V = SmtpSettingsView;

    closed spec fn view(&self) -> SmtpSettingsView {
        self.settings@
    }
}

/// TLS parameters of `lettre`, with the host name they check.
pub struct TlsParams {
    params: lettre::transport::smtp::client::TlsParameters,
    domain: String,
}

impl View for TlsParams {
    type V = Seq<char>;

    closed spec fn view(&self) -> Seq<char> {
        self.domain@
    }
}

/// The TLS setting handed to the transport builder.
pub enum TlsSetting {
    Plain,
    Wrapper(TlsParams),
    Required(TlsParams),
}

impl View for TlsSetting {
    type V = TlsChoiceView;

    open spec fn view(&self) -> TlsChoiceView {
        match self {
            TlsSetting::Plain => TlsChoiceView::Plain,
            TlsSetting::Wrapper(p) => TlsChoiceView::Wrapper { domain: p@ },
            TlsSetting::Required(p) => TlsChoiceView::Required { domain: p@ },
        }
    }
}

/// An SMTP transport of `lettre`, with the settings it was built with.
pub struct SmtpMailer {
    transport: lettre::SmtpTransport,
    settings: SmtpSettings,
}

impl View for SmtpMailer {
    type V = SmtpSettingsView;

    closed spec fn view(&self) -> SmtpSettingsView {
        self.settings@
    }
}

/// Calls `lettre::SmtpTransport::relay(host)`.
/// Trusted: a builder that comes back is set to `host` on port 465 with
/// TLS from the start checking `host` (`TlsParameters::new(host)`), and no
/// login, as the source of `relay` shows. Whether it fails is left open:
/// making the TLS parameters depends on the crypto provider installed in
/// the process.
#[verifier::external_body]
fn smtp_relay(host: &str) -> (r: Result<SmtpRelay, lettre::transport::smtp::Error>)
    ensures
        r matches Ok(relay) ==> relay@ == relay_settings(host@),
{
    match lettre::SmtpTransport::relay(host) {
        Ok(builder) => Ok(SmtpRelay {
            builder,
            settings: SmtpSettings {
                host: host.to_string(),
                port: 465,
                tls: TlsChoice::Wrapper { domain: host.to_string() },
                credentials: None,
            },
        }),
        Err(e) => Err(e),
    }
}

/// Calls `SmtpTransportBuilder::port`.
/// Trusted: the builder is set to that port and is otherwise unchanged.
#[verifier::external_body]
fn set_port(relay: SmtpRelay, port: u16) -> (r: SmtpRelay)
    ensures
        r@ == (SmtpSettingsView { port, ..relay@ }),
{
    SmtpRelay { builder: relay.builder.port(port), settings: SmtpSettings { port, ..relay.settings } }
}

/// Calls `lettre::transport::smtp::client::TlsParameters::new(host)`.
/// Trusted: parameters that come back check the name `host`. Whether it
/// fails is left open: it depends on the crypto provider installed in the
/// process.
#[verifier::external_body]
fn tls_parameters(host: &str) -> (r: Result<TlsParams, lettre::transport::smtp::Error>)
    ensures
        r matches Ok(p) ==> p@ == host@,
{
    match lettre::transport::smtp::client::TlsParameters::new(host.to_string()) {
        Ok(params) => Ok(TlsParams { params, domain: host.to_string() }),
        Err(e) => Err(e),
    }
}

/// Calls `SmtpTransportBuilder::tls` with the `lettre` `Tls` variant of the
/// same name as the setting (`Tls::None` for `Plain`).
/// Trusted: the builder is set to that security and is otherwise unchanged.
#[verifier::external_body]
fn set_tls(relay: SmtpRelay, setting: TlsSetting) -> (r: SmtpRelay)
    ensures
        r@ == (SmtpSettingsView { tls: setting@, ..relay@ }),
{
    let (tls, choice) = match setting {
        TlsSetting::Plain => (lettre::transport::smtp::client::Tls::None, TlsChoice::Plain),
        TlsSetting::Wrapper(p) => (lettre::transport::smtp::client::Tls::Wrapper(p.params), TlsChoice::Wrapper { domain: p.domain }),
        TlsSetting::Required(p) => (lettre::transport::smtp::client::Tls::Required(p.params), TlsChoice::Required { domain: p.domain }),
    };
    SmtpRelay { builder: relay.builder.tls(tls), settings: SmtpSettings { tls: choice, ..relay.settings } }
}

/// Calls `SmtpTransportBuilder::credentials` with
/// `Credentials::new(user, password)`.
/// Trusted: the builder logs in with them and is otherwise unchanged.
#[verifier::external_body]
fn set_credentials(relay: SmtpRelay, user: String, password: String) -> (r: SmtpRelay)
    ensures
        r@ == (SmtpSettingsView { credentials: Some((user@, password@)), ..relay@ }),
{
    let credentials = lettre::transport::smtp::authentication::Credentials::new(user.clone(), password.clone());
    SmtpRelay {
        builder: relay.builder.credentials(credentials),
        settings: SmtpSettings { credentials: Some((user, password)), ..relay.settings },
    }
}

/// Calls `SmtpTransportBuilder::build`.
/// Trusted: the transport has the builder's settings.
#[verifier::external_body]
fn build_transport(relay: SmtpRelay) -> (m: SmtpMailer)
    ensures
        m@ == relay@,
{
    SmtpMailer { transport: relay.builder.build(), settings: relay.settings }
}

/// Why the mail transport could not be set up.
pub enum EmailSetupError {
    /// The relay to the SMTP host could not be made.
    Relay,
    /// The TLS parameters for the SMTP host could not be made.
    TlsParameters,
}

impl EmailSetupError {
    /// The text that reports the error.
    pub fn message(&self) -> (s: &'static str)
        ensures
            s@ == match self {
                EmailSetupError::Relay => "Failed to create SMTP relay"@,
                EmailSetupError::TlsParameters => "Failed to create TLS parameters"@,
            },
    {
        match self {
            EmailSetupError::Relay => "Failed to create SMTP relay",
            EmailSetupError::TlsParameters => "Failed to create TLS parameters",
        }
    }
}

/// Whether `lettre` parses `s` as a mailbox (`Mailbox::from_str`).
pub uninterp spec fn lettre_parses_mailbox(s: Seq<char>) -> bool;

/// A mailbox of `lettre`, with the text it was parsed from.
pub struct MailboxText {
    mailbox: lettre::message::Mailbox,
    text: String,
}

impl View for MailboxText {
    type V = Seq<char>;

    closed spec fn view(&self) -> Seq<char> {
        self.text@
    }
}

/// Calls `<lettre::message::Mailbox as FromStr>::from_str(s)`.
/// Trusted: it succeeds exactly when `lettre_parses_mailbox(s@)`, and the
/// mailbox is the one parsed from `s`.
#[verifier::external_body]
fn parse_mailbox(s: &str) -> (r: Result<MailboxText, lettre::address::AddressError>)
    ensures
        r is Ok <==> lettre_parses_mailbox(s@),
        r matches Ok(m) ==> m@ == s@,
{
    match s.parse::<lettre::message::Mailbox>() {
        Ok(mailbox) => Ok(MailboxText { mailbox, text: s.to_string() }),
        Err(e) => Err(e),
    }
}

/// An e-mail of `lettre`, with what it was composed of.
pub struct OtpMessage {
    message: lettre::Message,
    from: String,
    to: String,
    subject: String,
    html_body: String,
}

/// What an e-mail was composed of: its sender and recipient (as the texts
/// their mailboxes were parsed from), its subject, and its body, which is
/// sent as `text/html`.
pub struct OtpMessageView {
    pub from: Seq<char>,
    pub to: Seq<char>,
    pub subject: Seq<char>,
    pub html_body: Seq<char>,
}

impl View for OtpMessage {
    type V = OtpMessageView;

    closed spec fn view(&self) -> OtpMessageView {
        OtpMessageView { from: self.from@, to: self.to@, subject: self.subject@, html_body: self.html_body@ }
    }
}

impl OtpMessage {
    /// The `lettre` e-mail itself.
    pub closed spec fn lettre_message(&self) -> lettre::Message {
        self.message
    }

    /// The `lettre` e-mail itself, to be sent.
    pub fn message(&self) -> (m: &lettre::Message)
        ensures
            *m == self.lettre_message(),
    {
        &self.message
    }
}

/// Calls `lettre::Message::builder()`, then `from`, `to`, `subject`,
/// `header(ContentType::TEXT_HTML)` and `body(html)` on it.
/// Trusted: the e-mail is composed of these; building it cannot fail once
/// a sender and a recipient are set (`MessageBuilder::build` fails only
/// without a sender, with several senders and no `Sender` header, or
/// without a recipient), so none is handed back.
#[verifier::external_body]
fn html_message(from: MailboxText, to: MailboxText, subject: &str, html: String) -> (m: OtpMessage)
    ensures
        m@ == (OtpMessageView { from: from@, to: to@, subject: subject@, html_body: html@ }),
{
    let message = lettre::Message::builder()
        .from(from.mailbox)
        .to(to.mailbox)
        .subject(subject)
        .header(lettre::message::header::ContentType::TEXT_HTML)
        .body(html.clone())
        .expect("a sender and a recipient are set");
    OtpMessage { message, from: from.text, to: to.text, subject: subject.to_string(), html_body: html }
}

/// Delivers the e-mails of the service through an SMTP transport.
pub struct EmailService {
    mailer: SmtpMailer,
    from_address: String,
}

/// An e-mail service: the settings of its transport, and the address that
/// e-mails go out from.
pub struct EmailServiceView {
    pub settings: SmtpSettingsView,
    pub sender: Seq<char>,
}

impl View for EmailService {
    type V = EmailServiceView;

    closed spec fn view(&self) -> EmailServiceView {
        EmailServiceView { settings: self.mailer@, sender: self.from_address@ }
    }
}

/// Subject of the e-mail that carries a code.
pub open spec fn otp_subject() -> Seq<char> {
    "Your One-Time Password"@
}

/// Whether `r` is the e-mail that carries a code to `to_email` with the body
/// `html_body`, from `sender`: a recipient that does not parse is the
/// e-mail error `Invalid email`; otherwise the e-mail goes from `sender` to
/// `to_email` with the code's subject and the body as HTML.
pub open spec fn otp_email(
    r: Result<OtpMessage, AppError>,
    sender: Seq<char>,
    to_email: Seq<char>,
    html_body: Seq<char>,
) -> bool {
    if lettre_parses_mailbox(to_email) {
        r matches Ok(m) && m@ == (OtpMessageView { from: sender, to: to_email, subject: otp_subject(), html_body })
    } else {
        r matches Err(AppError::EmailError(m)) && m@ == "Invalid email"@
    }
}

/// The e-mail that carries a code goes from the service's address to the
/// requested address, with the subject `Your One-Time Password` and the
/// rendered body sent as HTML; an address that `lettre` does not parse is
/// answered `Invalid email`.
pub proof fn law_otp_email_addressing(
    r: Result<OtpMessage, AppError>,
    sender: Seq<char>,
    to_email: Seq<char>,
    html_body: Seq<char>,
)
    requires
        otp_email(r, sender, to_email, html_body),
    ensures
        lettre_parses_mailbox(to_email) ==> (r matches Ok(m) && m@.from == sender && m@.to == to_email
            && m@.subject == "Your One-Time Password"@ && m@.html_body == html_body),
        !lettre_parses_mailbox(to_email) ==> (r matches Err(AppError::EmailError(text)) && text@ == "Invalid email"@),
{
}

impl EmailService {
    /// Makes a relay of `lettre` to `host` (port 465, TLS from the start).
    pub fn open_relay(host: &str) -> (r: Result<SmtpRelay, EmailSetupError>)
        ensures
            r matches Ok(relay) ==> relay@ == relay_settings(host@),
            r matches Err(e) ==> e is Relay,
    {
        match smtp_relay(host) {
            Ok(relay) => Ok(relay),
            Err(_) => Err(EmailSetupError::Relay),
        }
    }

    /// Makes TLS parameters of `lettre` that check the name `host`.
    pub fn open_tls_parameters(host: &str) -> (r: Result<TlsParams, EmailSetupError>)
        ensures
            r matches Ok(p) ==> p@ == host@,
            r matches Err(e) ==> e is TlsParameters,
    {
        match tls_parameters(host) {
            Ok(p) => Ok(p),
            Err(_) => Err(EmailSetupError::TlsParameters),
        }
    }

    /// Sets up the transport to the configured SMTP host and port: a relay
    /// to the host, secured as `tls_mode_for(config.smtp_use_tls,
    /// config.smtp_port)` says (TLS parameters for the host where TLS is
    /// used), logged in with the configured user and password when a user
    /// is set; e-mails go out from the configured address. Whether `lettre`
    /// can make the relay and the TLS parameters depends on the process;
    /// what is done with its answers is stated by `from_relay`.
    pub fn new(config: &Config) -> (r: Result<EmailService, EmailSetupError>)
        ensures
            r matches Ok(service) ==> service@ == (EmailServiceView {
                settings: settings_for(*config),
                sender: config.from_address@,
            }),
            r matches Err(e) ==> (e is Relay || (e is TlsParameters
                && !(tls_mode_for(config.smtp_use_tls, config.smtp_port) is Plain))),
    {
        let relay = Self::open_relay(config.smtp_host.as_str());
        let plain = match tls_mode(config.smtp_use_tls, config.smtp_port) {
            TlsMode::Plain => true,
            _ => false,
        };
        let tls = match &relay {
            Ok(_) => if plain {
                None
            } else {
                Some(Self::open_tls_parameters(config.smtp_host.as_str()))
            },
            Err(_) => None,
        };
        Self::from_relay(config, relay, tls)
    }

    /// Finishes setting up the transport from what `lettre` made for the
    /// configured host: the relay and, where the connection uses TLS, the
    /// TLS parameters. A relay that could not be made is `Relay`; TLS
    /// parameters that could not be made are `TlsParameters`; otherwise the
    /// transport has the settings that the configuration asks for, and
    /// e-mails go out from the configured address.
    pub fn from_relay(
        config: &Config,
        relay: Result<SmtpRelay, EmailSetupError>,
        tls: Option<Result<TlsParams, EmailSetupError>>,
    ) -> (r: Result<EmailService, EmailSetupError>)
        requires
            relay matches Ok(b) ==> b@ == relay_settings(config.smtp_host@),
            relay is Ok ==> (tls is None <==> tls_mode_for(config.smtp_use_tls, config.smtp_port) is Plain),
            tls matches Some(Ok(p)) ==> p@ == config.smtp_host@,
        ensures
            relay is Err ==> r matches Err(EmailSetupError::Relay),
            (relay is Ok && (tls matches Some(Err(_)))) ==> r matches Err(EmailSetupError::TlsParameters),
            (relay is Ok && !(tls matches Some(Err(_)))) ==> (r matches Ok(service) && service@ == (EmailServiceView {
                settings: settings_for(*config),
                sender: config.from_address@,
            })),
    {
        let relay = match relay {
            Ok(b) => b,
            Err(_) => return Err(EmailSetupError::Relay),
        };
        let mut relay = set_port(relay, config.smtp_port);
        let setting = match tls_mode(config.smtp_use_tls, config.smtp_port) {
            TlsMode::Plain => TlsSetting::Plain,
            TlsMode::Wrapper => match tls {
                Some(Ok(p)) => TlsSetting::Wrapper(p),
                _ => return Err(EmailSetupError::TlsParameters),
            },
            TlsMode::Required => match tls {
                Some(Ok(p)) => TlsSetting::Required(p),
                _ => return Err(EmailSetupError::TlsParameters),
            },
        };
        relay = set_tls(relay, setting);
        if !config.smtp_user.as_str().is_empty() {
            relay = set_credentials(relay, config.smtp_user.clone(), config.smtp_password.clone());
        }
        let service = EmailService { mailer: build_transport(relay), from_address: config.from_address.clone() };
        assert(service@.settings == settings_for(*config));
        Ok(service)
    }

    /// The address that e-mails go out from.
    pub closed spec fn sender(&self) -> Seq<char> {
        self.from_address@
    }

    /// The address that e-mails go out from.
    pub fn from_address(&self) -> (a: &String)
        ensures
            a@ == self.sender(),
            a@ == self@.sender,
    {
        &self.from_address
    }

    /// The settings that the transport was built with.
    pub fn settings(&self) -> (s: &SmtpSettings)
        ensures
            s@ == self@.settings,
    {
        &self.mailer.settings
    }

    /// The transport that delivers the e-mails.
    pub closed spec fn transport(&self) -> lettre::SmtpTransport {
        self.mailer.transport
    }

    /// The transport that delivers the e-mails.
    pub fn mailer(&self) -> (m: &lettre::SmtpTransport)
        ensures
            *m == self.transport(),
    {
        &self.mailer.transport
    }

    /// Composes the e-mail that carries a code to `to_email`, with the
    /// rendered HTML body and the code's subject, from the service's address,
    /// which must parse; a recipient that does not parse is the e-mail error
    /// `Invalid email`.
    pub fn compose_otp_email(&self, to_email: &str, html_body: String) -> (r: Result<OtpMessage, AppError>)
        requires
            lettre_parses_mailbox(self.sender()),
        ensures
            otp_email(r, self.sender(), to_email@, html_body@),
    {
        let from = match parse_mailbox(self.from_address.as_str()) {
            Ok(m) => m,
            Err(_) => vstd::pervasive::unreached(),
        };
        let to = match parse_mailbox(to_email) {
            Ok(m) => m,
            Err(_) => return Err(AppError::EmailError(String::from_str("Invalid email"))),
        };
        proof {
            reveal_strlit("Your One-Time Password");
        }
        Ok(html_message(from, to, "Your One-Time Password", html_body))
    }

    /// Composes the e-mail as `compose_otp_email` does where the service's
    /// address parses; `None` where it does not.
    pub fn try_compose_otp_email(&self, to_email: &str, html_body: String) -> (r: Option<Result<OtpMessage, AppError>>)
        ensures
            r is None <==> !lettre_parses_mailbox(self.sender()),
            r matches Some(composed) ==> otp_email(composed, self.sender(), to_email@, html_body@),
    {
        match parse_mailbox(self.from_address.as_str()) {
            Ok(_) => Some(self.compose_otp_email(to_email, html_body)),
            Err(_) => None,
        }
    }
}

} // verus!
