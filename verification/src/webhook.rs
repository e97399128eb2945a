//! The webhook a report is delivered to: the stages that turn two texts
//! into an endpoint known to answer, and the request that carries a report.

use vstd::prelude::*;

use crate::command::{is_report_on, CommandReport};
use crate::decimal::{decimal_digits, decimal_text, parse_u64, parsed_u64};

verus! {

/// The environment variable that holds the webhook's id.
pub const WEBHOOK_ID_VAR_NAME: &'static str = "WING_WEBHOOK_ID";

/// The environment variable that holds the webhook's token.
pub const WEBHOOK_TOKEN_VAR_NAME: &'static str = "WING_WEBHOOK_TOKEN";

/// The address of the webhook with this id and token.
pub open spec fn webhook_url(id: u64, token: Seq<char>) -> Seq<char> {
    "https://discord.com/api/webhooks/"@ + decimal_digits(id as nat) + "/"@ + token
}

/// Whether a token may hold `c`: an ASCII letter or digit, `_` or `-`.
pub open spec fn is_token_char(c: char) -> bool {
    ('a' <= c <= 'z') || ('A' <= c <= 'Z') || ('0' <= c <= '9') || c == '_' || c == '-'
}

/// Whether every character of `s` may stand in a token.
pub open spec fn is_token_text(s: Seq<char>) -> bool {
    forall|i: int| 0 <= i < s.len() ==> is_token_char(#[trigger] s[i])
}

/// Whether an HTTP status reports success.
pub open spec fn is_success(status: u16) -> bool {
    200 <= status < 300
}

/// The text that was offered as a webhook id and is none. Its view is that
/// text.
#[derive(Debug)]
pub struct IdError(String);

impl View for IdError {
    type V = Seq<char>;

    closed spec fn view(&self) -> Seq<char> {
        self.0@
    }
}

impl IdError {
    /// The text that was rejected.
    pub fn input(&self) -> (text: &str)
        ensures
            text@ == self@,
    {
        self.0.as_str()
    }

    /// What to tell the user.
    pub fn message(&self) -> (text: String)
        ensures
            text@ == "Invalid webhook id "@ + self@ + ". IDs must be 64 bit integers."@,
    {
        let mut text = String::from_str("Invalid webhook id ");
        text.append(self.0.as_str());
        text.append(". IDs must be 64 bit integers.");
        text
    }
}

/// The text that was offered as a webhook token and is none. Its view is
/// that text.
#[derive(Debug)]
pub struct TokenError(String);

impl View for TokenError {
    type V = Seq<char>;

    closed spec fn view(&self) -> Seq<char> {
        self.0@
    }
}

impl TokenError {
    /// The text that was rejected.
    pub fn input(&self) -> (text: &str)
        ensures
            text@ == self@,
    {
        self.0.as_str()
    }

    /// What to tell the user.
    pub fn message(&self) -> (text: String)
        ensures
            text@ == "Invalid webhook token "@ + self@
                + ". Token must be alphanumeric or `_`/`-`."@,
    {
        let mut text = String::from_str("Invalid webhook token ");
        text.append(self.0.as_str());
        text.append(". Token must be alphanumeric or `_`/`-`.");
        text
    }
}

/// The reason phrase that `reqwest::StatusCode::canonical_reason` has for
/// the status of this number: none where the number has no phrase, and
/// none where it is no status at all.
pub uninterp spec fn reason_phrase(status: u16) -> Option<Seq<char>>;

/// Looks up the reason phrase of a status: `reqwest::StatusCode::from_u16`
/// makes the status of the number, and `StatusCode::canonical_reason` has
/// its phrase. The phrase comes from a fixed table, so it is a function of
/// the number alone. A number that `from_u16` refuses has no phrase.
#[verifier::external_body]
fn status_reason(status: u16) -> (reason: Option<String>)
    ensures
        match reason {
            Some(phrase) => reason_phrase(status) == Some(phrase@),
            None => reason_phrase(status) is None,
        },
{
    match reqwest::StatusCode::from_u16(status) {
        Ok(code) => code.canonical_reason().map(String::from),
        Err(_) => None,
    }
}

/// A status as it is shown: its number, a space, and its reason phrase, or
/// `<unknown status code>` where it has none.
pub open spec fn status_text(status: u16, reason: Option<Seq<char>>) -> Seq<char> {
    decimal_digits(status as nat) + " "@ + match reason {
        Some(phrase) => phrase,
        None => "<unknown status code>"@,
    }
}

/// Shows a status with the reason phrase that was looked up for it.
pub fn show_status(status: u16, reason: Option<&str>) -> (text: String)
    ensures
        text@ == status_text(
            status,
            match reason {
                Some(phrase) => Some(phrase@),
                None => None,
            },
        ),
{
    let mut text = decimal_text(status as u64);
    text.append(" ");
    match reason {
        Some(phrase) => text.append(phrase),
        None => text.append("<unknown status code>"),
    }
    text
}

/// Shows a status with its own reason phrase.
fn status_line(status: u16) -> (text: String)
    ensures
        text@ == status_text(status, reason_phrase(status)),
{
    match status_reason(status) {
        Some(phrase) => show_status(status, Some(phrase.as_str())),
        None => show_status(status, None),
    }
}

/// How an HTTP request ended.
#[derive(Debug)]
pub enum HttpOutcome {
    /// A response arrived, with this status.
    Status(u16),
    /// No response arrived; the text says why.
    Failed(String),
}

/// Why a webhook was not confirmed.
#[derive(Debug)]
pub enum WebhookValidationError {
    /// The probe got no response.
    RequestError { url: String, error: String },
    /// The probe was answered with a status other than success.
    InvalidWebhookUrl { url: String, status: u16 },
}

impl WebhookValidationError {
    /// What to tell the user.
    pub fn message(&self) -> (text: String)
        ensures
            text@ == match *self {
                WebhookValidationError::RequestError { url, error } =>
                    "Encountered error during GET request to "@ + url@ + ": "@ + error@,
                WebhookValidationError::InvalidWebhookUrl { url, status } => "Webhook URL "@
                    + url@ + " is not valid: "@ + status_text(status, reason_phrase(status)),
            },
    {
        match self {
            WebhookValidationError::RequestError { url, error } => {
                let mut text = String::from_str("Encountered error during GET request to ");
                text.append(url.as_str());
                text.append(": ");
                text.append(error.as_str());
                text
            },
            WebhookValidationError::InvalidWebhookUrl { url, status } => {
                let mut text = String::from_str("Webhook URL ");
                text.append(url.as_str());
                text.append(" is not valid: ");
                text.append(status_line(*status).as_str());
                text
            },
        }
    }
}

/// Why no webhook could be had from the environment.
#[derive(Debug)]
pub enum WebhookInfoError {
    MissingId,
    MissingToken,
    InvalidId(IdError),
    InvalidToken(TokenError),
    InvalidWebhook(WebhookValidationError),
}

impl WebhookInfoError {
    /// What to tell the user.
    pub fn message(&self) -> (text: String)
        ensures
            text@ == match *self {
                WebhookInfoError::MissingId =>
                    "Missing webhook id. Set `WING_WEBHOOK_ID` to the id."@,
                WebhookInfoError::MissingToken =>
                    "Missing webhook token. Set `WING_WEBHOOK_TOKEN` to the token."@,
                WebhookInfoError::InvalidId(e) => "Invalid webhook id "@ + e@
                    + ". IDs must be 64 bit integers."@,
                WebhookInfoError::InvalidToken(e) => "Invalid webhook token "@ + e@
                    + ". Token must be alphanumeric or `_`/`-`."@,
                WebhookInfoError::InvalidWebhook(
                    WebhookValidationError::RequestError { url, error },
                ) => "Encountered error during GET request to "@ + url@ + ": "@ + error@,
                WebhookInfoError::InvalidWebhook(
                    WebhookValidationError::InvalidWebhookUrl { url, status },
                ) => "Webhook URL "@ + url@ + " is not valid: "@ + status_text(
                    status,
                    reason_phrase(status),
                ),
            },
    {
        match self {
            WebhookInfoError::MissingId => String::from_str(
                "Missing webhook id. Set `WING_WEBHOOK_ID` to the id.",
            ),
            WebhookInfoError::MissingToken => String::from_str(
                "Missing webhook token. Set `WING_WEBHOOK_TOKEN` to the token.",
            ),
            WebhookInfoError::InvalidId(e) => e.message(),
            WebhookInfoError::InvalidToken(e) => e.message(),
            WebhookInfoError::InvalidWebhook(e) => e.message(),
        }
    }
}

/// A webhook token: text of ASCII letters, digits, `_` and `-` only. Its
/// view is that text.
#[derive(Debug)]
pub struct Token(String);

impl View for Token {
    type V = Seq<char>;

    closed spec fn view(&self) -> Seq<char> {
        self.0@
    }
}

/// A text with a character outside ASCII is no token.
proof fn lemma_non_ascii_is_no_token(s: Seq<char>)
    requires
        !vstd::utf8::is_ascii_chars(s),
    ensures
        !is_token_text(s),
{
    let i = choose|i: int| 0 <= i < s.len() && !('\0' <= #[trigger] s[i] <= '\u{7f}');
    assert(!is_token_char(s[i]));
}

/// Whether the byte is the ASCII code of a character a token may hold.
fn is_token_byte(b: u8) -> (yes: bool)
    ensures
        yes == is_token_char(b as char),
{
    (97 <= b && b <= 122) || (65 <= b && b <= 90) || (48 <= b && b <= 57) || b == 95 || b == 45
}

impl Token {
    #[verifier::type_invariant]
    spec fn well_formed(self) -> bool {
        is_token_text(self.0@)
    }

    /// Reads a token: accepted if every character is an ASCII letter or
    /// digit, `_` or `-`; otherwise the whole text comes back as the error.
    pub fn from_str(s: &str) -> (token: Result<Token, TokenError>)
        ensures
            match token {
                Ok(t) => is_token_text(s@) && t@ == s@,
                Err(e) => !is_token_text(s@) && e@ == s@,
            },
    {
        if !s.is_ascii() {
            proof {
                lemma_non_ascii_is_no_token(s@);
            }
            return Err(TokenError(s.to_owned()));
        }
        proof {
            vstd::string::is_ascii_spec_bytes(s);
        }
        let bytes = s.as_bytes();
        let n: usize = bytes.len();
        let mut i: usize = 0;
        while i < n
            invariant
                i <= n,
                n == s@.len(),
                n == bytes@.len(),
                vstd::utf8::is_ascii_chars(s@),
                forall|k: int| 0 <= k < n ==> bytes@[k] == s@[k] as u8,
                forall|k: int| 0 <= k < i ==> is_token_char(#[trigger] s@[k]),
            decreases n - i,
        {
            assert(bytes@[i as int] as char == s@[i as int]);
            if !is_token_byte(bytes[i]) {
                return Err(TokenError(s.to_owned()));
            }
            i = i + 1;
        }
        Ok(Token(s.to_owned()))
    }

    /// The token's text.
    pub fn as_str(&self) -> (text: &str)
        ensures
            text@ == self@,
            is_token_text(text@),
    {
        proof {
            use_type_invariant(self);
        }
        self.0.as_str()
    }
}

/// Builds the address of the webhook with this id and token.
pub fn construct_webhook_url(id: &u64, token: &Token) -> (url: String)
    ensures
        url@ == webhook_url(*id, token@),
{
    let mut url = String::from_str("https://discord.com/api/webhooks/");
    url.append(decimal_text(*id).as_str());
    url.append("/");
    url.append(token.as_str());
    url
}

/// The first stage: nothing is known yet.
#[derive(Debug)]
pub struct WebhookBuilder {}

impl WebhookBuilder {
    /// Starts the stages.
    pub fn new() -> (builder: WebhookBuilder) {
        WebhookBuilder {  }
    }

    /// Reads the id: the decimal notation of a 64-bit unsigned integer. Any
    /// other text comes back as the error.
    pub fn id(self, s: &str) -> (stage: Result<WebhookWithoutToken, IdError>)
        ensures
            match parsed_u64(s@) {
                Some(id) => stage matches Ok(w) && w@ == id,
                None => stage matches Err(e) && e@ == s@,
            },
    {
        match parse_u64(s) {
            Some(id) => Ok(WebhookWithoutToken { id }),
            None => Err(IdError(s.to_owned())),
        }
    }
}

/// The second stage: the id is known. Its view is the id.
#[derive(Debug)]
pub struct WebhookWithoutToken {
    id: u64,
}

impl View for WebhookWithoutToken {
    type V = u64;

    closed spec fn view(&self) -> u64 {
        self.id
    }
}

impl WebhookWithoutToken {
    /// Reads the token. Text that is no token comes back as the error.
    pub fn token(self, s: &str) -> (stage: Result<UnvalidatedWebhookInfo, TokenError>)
        ensures
            match stage {
                Ok(u) => is_token_text(s@) && u@ == (self@, s@),
                Err(e) => !is_token_text(s@) && e@ == s@,
            },
    {
        match Token::from_str(s) {
            Ok(token) => Ok(UnvalidatedWebhookInfo { id: self.id, token }),
            Err(e) => Err(e),
        }
    }
}

/// The third stage: id and token are known, but not whether the webhook
/// answers. Its view is the id and the token's text.
#[derive(Debug)]
pub struct UnvalidatedWebhookInfo {
    id: u64,
    token: Token,
}

impl View for UnvalidatedWebhookInfo {
    type V = (u64, Seq<char>);

    closed spec fn view(&self) -> (u64, Seq<char>) {
        (self.id, self.token@)
    }
}

impl UnvalidatedWebhookInfo {
    /// The address to probe with a GET request.
    pub fn url(&self) -> (url: String)
        ensures
            url@ == webhook_url(self@.0, self@.1),
    {
        construct_webhook_url(&self.id, &self.token)
    }

    /// Takes in how the probe of `url()` ended. Only a status of success
    /// yields the endpoint; any other status, and a probe without a
    /// response, yield the error that names the address and the cause.
    pub fn check(self, probe: HttpOutcome) -> (checked: Result<
        WebhookInfo,
        WebhookValidationError,
    >)
        ensures
            match probe {
                HttpOutcome::Status(status) => if is_success(status) {
                    checked matches Ok(info) && info@ == self@
                } else {
                    checked matches Err(
                        WebhookValidationError::InvalidWebhookUrl { url, status: s },
                    ) && url@ == webhook_url(self@.0, self@.1) && s == status
                },
                HttpOutcome::Failed(cause) => checked matches Err(
                    WebhookValidationError::RequestError { url, error },
                ) && url@ == webhook_url(self@.0, self@.1) && error@ == cause@,
            },
    {
        let url = self.url();
        match probe {
            HttpOutcome::Status(status) => {
                if 200 <= status && status < 300 {
                    Ok(WebhookInfo { id: self.id, token: self.token })
                } else {
                    Err(WebhookValidationError::InvalidWebhookUrl { url, status })
                }
            },
            HttpOutcome::Failed(error) => Err(WebhookValidationError::RequestError { url, error }),
        }
    }
}

/// An endpoint that has answered a probe with success. Its view is the id
/// and the token's text.
#[derive(Debug)]
pub struct WebhookInfo {
    id: u64,
    token: Token,
}

impl View for WebhookInfo {
    type V = (u64, Seq<char>);

    closed spec fn view(&self) -> (u64, Seq<char>) {
        (self.id, self.token@)
    }
}

impl WebhookInfo {
    /// The first two stages, on the values of the two environment
    /// variables: both must be set before either is read, then the id must
    /// be an id and the token a token. What comes back is still to be
    /// probed.
    pub fn from_env(id: Option<&str>, token: Option<&str>) -> (pending: Result<
        UnvalidatedWebhookInfo,
        WebhookInfoError,
    >)
        ensures
            match pending {
                Ok(u) => {
                    &&& id matches Some(i)
                    &&& token matches Some(t)
                    &&& parsed_u64(i@) == Some(u@.0)
                    &&& is_token_text(t@)
                    &&& u@.1 == t@
                },
                Err(WebhookInfoError::MissingId) => id is None,
                Err(WebhookInfoError::MissingToken) => id is Some && token is None,
                Err(WebhookInfoError::InvalidId(e)) => {
                    &&& id matches Some(i)
                    &&& token is Some
                    &&& parsed_u64(i@) is None
                    &&& e@ == i@
                },
                Err(WebhookInfoError::InvalidToken(e)) => {
                    &&& id matches Some(i)
                    &&& token matches Some(t)
                    &&& parsed_u64(i@) is Some
                    &&& !is_token_text(t@)
                    &&& e@ == t@
                },
                Err(WebhookInfoError::InvalidWebhook(_)) => false,
            },
    {
        let id_text = match id {
            Some(text) => text,
            None => {
                return Err(WebhookInfoError::MissingId);
            },
        };
        let token_text = match token {
            Some(text) => text,
            None => {
                return Err(WebhookInfoError::MissingToken);
            },
        };
        let with_id = match WebhookBuilder::new().id(id_text) {
            Ok(stage) => stage,
            Err(e) => {
                return Err(WebhookInfoError::InvalidId(e));
            },
        };
        match with_id.token(token_text) {
            Ok(stage) => Ok(stage),
            Err(e) => Err(WebhookInfoError::InvalidToken(e)),
        }
    }

    /// The last stage: takes in how the probe ended and yields the
    /// endpoint, or the reason why there is none.
    pub fn validated(pending: UnvalidatedWebhookInfo, probe: HttpOutcome) -> (checked: Result<
        WebhookInfo,
        WebhookInfoError,
    >)
        ensures
            match probe {
                HttpOutcome::Status(status) => if is_success(status) {
                    checked matches Ok(info) && info@ == pending@
                } else {
                    checked matches Err(
                        WebhookInfoError::InvalidWebhook(
                            WebhookValidationError::InvalidWebhookUrl { url, status: s },
                        ),
                    ) && url@ == webhook_url(pending@.0, pending@.1) && s == status
                },
                HttpOutcome::Failed(cause) => checked matches Err(
                    WebhookInfoError::InvalidWebhook(
                        WebhookValidationError::RequestError { url, error },
                    ),
                ) && url@ == webhook_url(pending@.0, pending@.1) && error@ == cause@,
            },
    {
        match pending.check(probe) {
            Ok(info) => Ok(info),
            Err(e) => Err(WebhookInfoError::InvalidWebhook(e)),
        }
    }

    /// The webhook's id.
    pub fn id(&self) -> (id: u64)
        ensures
            id == self@.0,
    {
        self.id
    }

    /// The webhook's token.
    pub fn token(&self) -> (token: &Token)
        ensures
            token@ == self@.1,
    {
        &self.token
    }

    /// The address that reports are posted to.
    pub fn url(&self) -> (url: String)
        ensures
            url@ == webhook_url(self@.0, self@.1),
    {
        construct_webhook_url(&self.id, &self.token)
    }
}

/// The form field that carries the report's text.
pub const CONTENT_FIELD: &'static str = "content";

/// A file sent along with a report.
#[derive(Debug)]
pub struct Attachment {
    /// The form field the file is sent in.
    pub field: String,
    pub file_name: String,
    pub mime: String,
    pub body: String,
}

/// One multipart POST request: the report's text in the field
/// `CONTENT_FIELD`, and the files that go with it.
#[derive(Debug)]
pub struct DeliveryRequest {
    pub url: String,
    pub content: String,
    pub files: Vec<Attachment>,
}

/// Why a report was not delivered.
#[derive(Debug)]
pub enum DeliveryError {
    /// The request got no response; the text says why.
    Transport(String),
    /// The response had a status other than success.
    Status(u16),
}

/// Whether `file` is the plain-text file of this field, name and content.
pub open spec fn is_text_file(
    file: Attachment,
    field: Seq<char>,
    file_name: Seq<char>,
    body: Seq<char>,
) -> bool {
    &&& file.field@ == field
    &&& file.file_name@ == file_name
    &&& file.mime@ == "text/plain"@
    &&& file.body@ == body
}

/// Whether `files` are the attachments for these captures: the standard
/// output as `file1`, then the standard error as `file2`, each only if it
/// is not empty.
pub open spec fn attaches(files: Seq<Attachment>, stdout: Seq<char>, stderr: Seq<char>) -> bool {
    if stdout.len() > 0 && stderr.len() > 0 {
        &&& files.len() == 2
        &&& is_text_file(files[0], "file1"@, "stdout.txt"@, stdout)
        &&& is_text_file(files[1], "file2"@, "stderr.txt"@, stderr)
    } else if stdout.len() > 0 {
        &&& files.len() == 1
        &&& is_text_file(files[0], "file1"@, "stdout.txt"@, stdout)
    } else if stderr.len() > 0 {
        &&& files.len() == 1
        &&& is_text_file(files[0], "file2"@, "stderr.txt"@, stderr)
    } else {
        files.len() == 0
    }
}

fn text_file(field: &str, file_name: &str, body: &str) -> (file: Attachment)
    ensures
        is_text_file(file, field@, file_name@, body@),
{
    Attachment {
        field: String::from_str(field),
        file_name: String::from_str(file_name),
        mime: String::from_str("text/plain"),
        body: String::from_str(body),
    }
}

impl WebhookInfo {
    /// The request that delivers a report whose text is `content`, with the
    /// two captures attached where they are not empty.
    pub fn request(&self, content: String, stdout: &str, stderr: &str) -> (request:
        DeliveryRequest)
        ensures
            request.url@ == webhook_url(self@.0, self@.1),
            request.content@ == content@,
            attaches(request.files@, stdout@, stderr@),
    {
        let mut files: Vec<Attachment> = Vec::new();
        if !stdout.is_empty() {
            files.push(text_file("file1", "stdout.txt", stdout));
        }
        if !stderr.is_empty() {
            files.push(text_file("file2", "stderr.txt", stderr));
        }
        DeliveryRequest { url: self.url(), content, files }
    }

    /// The request that delivers `command_report`: its text laid out, with
    /// the two captures attached where they are not empty.
    pub fn report(&self, command_report: CommandReport, stdout: &str, stderr: &str) -> (request:
        DeliveryRequest)
        ensures
            request.url@ == webhook_url(self@.0, self@.1),
            is_report_on(request.content@, command_report.command.words(), command_report.elapsed@),
            attaches(request.files@, stdout@, stderr@),
    {
        self.request(command_report.to_text(), stdout, stderr)
    }
}

impl DeliveryRequest {
    /// Takes in how the one POST of this request ended: delivered if the
    /// status reports success; otherwise the error holds the status, or
    /// why no response arrived.
    pub fn conclude(self, response: HttpOutcome) -> (delivered: Result<(), DeliveryError>)
        ensures
            match response {
                HttpOutcome::Status(status) => if is_success(status) {
                    delivered is Ok
                } else {
                    delivered == Err::<(), DeliveryError>(DeliveryError::Status(status))
                },
                HttpOutcome::Failed(cause) => delivered matches Err(DeliveryError::Transport(e))
                    && e@ == cause@,
            },
    {
        match response {
            HttpOutcome::Status(status) => {
                if 200 <= status && status < 300 {
                    Ok(())
                } else {
                    Err(DeliveryError::Status(status))
                }
            },
            HttpOutcome::Failed(cause) => Err(DeliveryError::Transport(cause)),
        }
    }
}

impl DeliveryError {
    /// What to tell the user.
    pub fn message(&self) -> (text: String)
        ensures
            text@ == match *self {
                DeliveryError::Transport(cause) => cause@,
                DeliveryError::Status(status) => "Failed to send file. Status: "@
                    + status_text(status, reason_phrase(status)),
            },
    {
        match self {
            DeliveryError::Transport(cause) => cause.clone(),
            DeliveryError::Status(status) => {
                let mut text = String::from_str("Failed to send file. Status: ");
                text.append(status_line(*status).as_str());
                text
            },
        }
    }
}

} // verus!
