//! Checks on values sent in requests: name lengths, paging limits and
//! the size limits of rich embeds.
use vstd::prelude::*;
use vstd::string::StrSliceExecFns;

verus! {

/// Author of an embed.
#[derive(Clone, Debug)]
pub struct EmbedAuthor {
    pub icon_url: Option<String>,
    pub name: Option<String>,
    pub url: Option<String>,
}

/// A name / value field of an embed.
#[derive(Clone, Debug)]
pub struct EmbedField {
    pub inline: bool,
    pub name: String,
    pub value: String,
}

/// Footer of an embed.
#[derive(Clone, Debug)]
pub struct EmbedFooter {
    pub icon_url: Option<String>,
    pub text: String,
}

/// A rich embed attached to a message.
#[derive(Clone, Debug)]
pub struct Embed {
    pub author: Option<EmbedAuthor>,
    pub color: Option<u32>,
    pub description: Option<String>,
    pub fields: Vec<EmbedField>,
    pub footer: Option<EmbedFooter>,
    pub kind: String,
    pub timestamp: Option<String>,
    pub title: Option<String>,
    pub url: Option<String>,
}

/// Why an embed was refused.
#[derive(Clone, Copy, Debug, PartialEq, Eq, Structural)]
pub enum EmbedValidationError {
    AuthorNameTooLarge { chars: usize },
    DescriptionTooLarge { chars: usize },
    EmbedTooLarge { chars: usize },
    FieldNameTooLarge { chars: usize },
    FieldValueTooLarge { chars: usize },
    FooterTextTooLarge { chars: usize },
    TitleTooLarge { chars: usize },
    TooManyFields { amount: usize },
}

impl EmbedValidationError {
    pub const AUTHOR_NAME_LENGTH: usize = 256;
    pub const DESCRIPTION_LENGTH: usize = 2048;
    pub const EMBED_TOTAL_LENGTH: usize = 6000;
    pub const FIELD_COUNT: usize = 25;
    pub const FIELD_NAME_LENGTH: usize = 256;
    pub const FIELD_VALUE_LENGTH: usize = 1024;
    pub const FOOTER_TEXT_LENGTH: usize = 2048;
    pub const TITLE_LENGTH: usize = 256;
}

/// Number of characters of an optional text; none counts as zero.
pub open spec fn opt_chars(o: Option<String>) -> nat {
    match o {
        Some(s) => s@.len(),
        None => 0,
    }
}

/// Number of characters of the author's name, if there is one.
pub open spec fn author_chars(e: Embed) -> nat {
    match e.author {
        Some(a) => opt_chars(a.name),
        None => 0,
    }
}

/// Number of characters of the footer's text, if there is a footer.
pub open spec fn footer_chars(e: Embed) -> nat {
    match e.footer {
        Some(f) => f.text@.len(),
        None => 0,
    }
}

/// The first error among the first `n` fields, in field order.
pub open spec fn fields_error(f: Seq<EmbedField>, n: nat) -> Option<EmbedValidationError>
    decreases n,
{
    if n == 0 {
        None
    } else {
        match fields_error(f, (n - 1) as nat) {
            Some(e) => Some(e),
            None => if f[n - 1].name@.len() > EmbedValidationError::FIELD_NAME_LENGTH {
                Some(EmbedValidationError::FieldNameTooLarge { chars: f[n - 1].name@.len() as usize })
            } else if f[n - 1].value@.len() > EmbedValidationError::FIELD_VALUE_LENGTH {
                Some(EmbedValidationError::FieldValueTooLarge { chars: f[n - 1].value@.len() as usize })
            } else {
                None
            },
        }
    }
}

/// Characters in the names and values of the first `n` fields.
pub open spec fn fields_chars(f: Seq<EmbedField>, n: nat) -> nat
    decreases n,
{
    if n == 0 {
        0
    } else {
        fields_chars(f, (n - 1) as nat) + f[n - 1].name@.len() + f[n - 1].value@.len()
    }
}

/// Characters of every text of the embed that counts towards its total.
pub open spec fn embed_total(e: Embed) -> nat {
    author_chars(e) + opt_chars(e.description) + footer_chars(e)
        + fields_chars(e.fields@, e.fields@.len()) + opt_chars(e.title)
}

/// The verdict on an embed: the first limit it breaks, checked in the order
/// field count, author name, description, footer, fields, title, total.
pub open spec fn embed_verdict(e: Embed) -> Result<(), EmbedValidationError> {
    let nf = e.fields@.len();
    if nf > EmbedValidationError::FIELD_COUNT {
        Err(EmbedValidationError::TooManyFields { amount: nf as usize })
    } else if author_chars(e) > EmbedValidationError::AUTHOR_NAME_LENGTH {
        Err(EmbedValidationError::AuthorNameTooLarge { chars: author_chars(e) as usize })
    } else if opt_chars(e.description) > EmbedValidationError::DESCRIPTION_LENGTH {
        Err(EmbedValidationError::DescriptionTooLarge { chars: opt_chars(e.description) as usize })
    } else if footer_chars(e) > EmbedValidationError::FOOTER_TEXT_LENGTH {
        Err(EmbedValidationError::FooterTextTooLarge { chars: footer_chars(e) as usize })
    } else if fields_error(e.fields@, nf) is Some {
        Err(fields_error(e.fields@, nf)->0)
    } else if opt_chars(e.title) > EmbedValidationError::TITLE_LENGTH {
        Err(EmbedValidationError::TitleTooLarge { chars: opt_chars(e.title) as usize })
    } else if embed_total(e) > EmbedValidationError::EMBED_TOTAL_LENGTH {
        Err(EmbedValidationError::EmbedTooLarge { chars: embed_total(e) as usize })
    } else {
        Ok(())
    }
}

proof fn lemma_fields_chars_bound(f: Seq<EmbedField>, n: nat)
    requires
        n <= f.len(),
        fields_error(f, n) is None,
    ensures
        fields_chars(f, n) <= n * 1280,
    decreases n,
{
    if n > 0 {
        lemma_fields_chars_bound(f, (n - 1) as nat);
    }
}

proof fn lemma_fields_error_stable(f: Seq<EmbedField>, k: nat, n: nat)
    requires
        k <= n <= f.len(),
        fields_error(f, k) is Some,
    ensures
        fields_error(f, n) == fields_error(f, k),
    decreases n - k,
{
    if n > k {
        lemma_fields_error_stable(f, k, (n - 1) as nat);
    }
}

fn opt_str_chars(o: &Option<String>) -> (r: usize)
    ensures
        r == opt_chars(*o),
{
    match o {
        Some(s) => s.as_str().unicode_len(),
        None => 0,
    }
}

/// Checks an embed against the platform's size limits.
pub fn embed(value: &Embed) -> (r: Result<(), EmbedValidationError>)
    ensures
        r == embed_verdict(*value),
{
    let nf = value.fields.len();
    if nf > EmbedValidationError::FIELD_COUNT {
        return Err(EmbedValidationError::TooManyFields { amount: nf });
    }
    let author = match &value.author {
        Some(a) => opt_str_chars(&a.name),
        None => 0,
    };
    if author > EmbedValidationError::AUTHOR_NAME_LENGTH {
        return Err(EmbedValidationError::AuthorNameTooLarge { chars: author });
    }
    let description = opt_str_chars(&value.description);
    if description > EmbedValidationError::DESCRIPTION_LENGTH {
        return Err(EmbedValidationError::DescriptionTooLarge { chars: description });
    }
    let footer = match &value.footer {
        Some(f) => f.text.as_str().unicode_len(),
        None => 0,
    };
    if footer > EmbedValidationError::FOOTER_TEXT_LENGTH {
        return Err(EmbedValidationError::FooterTextTooLarge { chars: footer });
    }
    let mut fields_total: usize = 0;
    let mut i: usize = 0;
    while i < nf
        invariant
            nf == value.fields@.len(),
            nf <= 25,
            i <= nf,
            author == author_chars(*value),
            author <= EmbedValidationError::AUTHOR_NAME_LENGTH,
            description == opt_chars(value.description),
            description <= EmbedValidationError::DESCRIPTION_LENGTH,
            footer == footer_chars(*value),
            footer <= EmbedValidationError::FOOTER_TEXT_LENGTH,
            fields_error(value.fields@, i as nat) is None,
            fields_total == fields_chars(value.fields@, i as nat),
        decreases nf - i,
    {
        proof {
            lemma_fields_chars_bound(value.fields@, i as nat);
        }
        let field = &value.fields[i];
        let name_chars = field.name.as_str().unicode_len();
        if name_chars > EmbedValidationError::FIELD_NAME_LENGTH {
            proof {
                lemma_fields_error_stable(value.fields@, (i + 1) as nat, nf as nat);
            }
            return Err(EmbedValidationError::FieldNameTooLarge { chars: name_chars });
        }
        let value_chars = field.value.as_str().unicode_len();
        if value_chars > EmbedValidationError::FIELD_VALUE_LENGTH {
            proof {
                lemma_fields_error_stable(value.fields@, (i + 1) as nat, nf as nat);
            }
            return Err(EmbedValidationError::FieldValueTooLarge { chars: value_chars });
        }
        fields_total = fields_total + name_chars + value_chars;
        i = i + 1;
    }
    let title = opt_str_chars(&value.title);
    if title > EmbedValidationError::TITLE_LENGTH {
        return Err(EmbedValidationError::TitleTooLarge { chars: title });
    }
    proof {
        lemma_fields_chars_bound(value.fields@, nf as nat);
    }
    let total = author + description + footer + fields_total + title;
    if total > EmbedValidationError::EMBED_TOTAL_LENGTH {
        return Err(EmbedValidationError::EmbedTooLarge { chars: total });
    }
    Ok(())
}

/// Whether a ban may delete this many days of messages: at most seven.
pub fn ban_delete_message_days(value: u64) -> (r: bool)
    ensures
        r == (value <= 7),
{
    value <= 7
}

/// Whether a channel name has between 2 and 100 characters.
pub fn channel_name(value: &str) -> (r: bool)
    ensures
        r == (2 <= value@.len() <= 100),
{
    let len = value.unicode_len();
    len >= 2 && len <= 100
}

/// Whether message content has at most 2000 characters.
pub fn content_limit(value: &str) -> (r: bool)
    ensures
        r == (value@.len() <= 2000),
{
    value.unicode_len() <= 2000
}

/// Whether an audit log page size is between 1 and 100.
pub fn get_audit_log_limit(value: u64) -> (r: bool)
    ensures
        r == (1 <= value <= 100),
{
    value > 0 && value <= 100
}

/// Whether a channel message page size is between 1 and 100.
pub fn get_channel_messages_limit(value: u64) -> (r: bool)
    ensures
        r == (1 <= value <= 100),
{
    value > 0 && value <= 100
}

/// Whether a page size of the current user's guilds is between 1 and 100.
pub fn get_current_user_guilds_limit(value: u64) -> (r: bool)
    ensures
        r == (1 <= value <= 100),
{
    value > 0 && value <= 100
}

/// Whether a guild member page size is between 1 and 1000.
pub fn get_guild_members_limit(value: u64) -> (r: bool)
    ensures
        r == (1 <= value <= 1000),
{
    value > 0 && value <= 1000
}

/// Whether a reaction page size is between 1 and 100.
pub fn get_reactions_limit(value: u64) -> (r: bool)
    ensures
        r == (1 <= value <= 100),
{
    value > 0 && value <= 100
}

/// Whether a guild name has between 2 and 100 characters.
pub fn guild_name(value: &str) -> (r: bool)
    ensures
        r == (2 <= value@.len() <= 100),
{
    let len = value.unicode_len();
    len >= 2 && len <= 100
}

/// Whether a prune covers at least one day.
pub fn guild_prune_days(value: u64) -> (r: bool)
    ensures
        r == (value > 0),
{
    value > 0
}

/// Why a prune count request was refused.
#[derive(Clone, Copy, Debug, PartialEq, Eq, Structural)]
pub enum GetGuildPruneCountErrorType {
    /// The number of days is 0.
    DaysInvalid,
}

/// The error returned when a prune count request is configured wrongly.
#[derive(Clone, Copy, Debug, PartialEq, Eq, Structural)]
pub struct GetGuildPruneCountError {
    kind: GetGuildPruneCountErrorType,
}

impl GetGuildPruneCountError {
    /// The type of error that occurred.
    pub open spec fn spec_kind(&self) -> GetGuildPruneCountErrorType {
        GetGuildPruneCountErrorType::DaysInvalid
    }

    /// Returns the type of error that occurred.
    pub fn kind(&self) -> (r: &GetGuildPruneCountErrorType)
        ensures
            *r == self.spec_kind(),
    {
        &self.kind
    }
}

/// Why a prune request was refused.
#[derive(Clone, Copy, Debug, PartialEq, Eq, Structural)]
pub enum CreateGuildPruneError {
    /// The number of days is 0.
    DaysInvalid,
}

/// Checks the number of inactive days of a prune count request.
pub fn prune_count_days(days: u64) -> (r: Result<u64, GetGuildPruneCountError>)
    ensures
        days > 0 ==> r == Ok::<u64, GetGuildPruneCountError>(days),
        days == 0 ==> r is Err,
{
    if !guild_prune_days(days) {
        return Err(GetGuildPruneCountError { kind: GetGuildPruneCountErrorType::DaysInvalid });
    }
    Ok(days)
}

/// Checks the number of inactive days of a prune request.
pub fn prune_days(days: u64) -> (r: Result<u64, CreateGuildPruneError>)
    ensures
        days > 0 ==> r == Ok::<u64, CreateGuildPruneError>(days),
        days == 0 ==> r == Err::<u64, CreateGuildPruneError>(CreateGuildPruneError::DaysInvalid),
{
    if !guild_prune_days(days) {
        return Err(CreateGuildPruneError::DaysInvalid);
    }
    Ok(days)
}

/// Whether a nickname has between 1 and 32 characters.
pub fn nickname(value: &str) -> (r: bool)
    ensures
        r == (1 <= value@.len() <= 32),
{
    let len = value.unicode_len();
    len > 0 && len <= 32
}

/// Whether a username has between 2 and 32 characters.
pub fn username(value: &str) -> (r: bool)
    ensures
        r == (2 <= value@.len() <= 32),
{
    let len = value.unicode_len();
    len >= 2 && len <= 32
}

} // verus!
