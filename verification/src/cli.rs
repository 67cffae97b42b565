//! The provider's commands: what each reports, and when it fails.
use vstd::prelude::*;

use crate::text::{join, lemma_same_tail, texts};

verus! {

/// What logging in is answered with.
pub const USES_API_KEY: &'static str = "OpenCode Go uses an API key; set CCP_OPENCODE_API_KEY, OPENCODE_API_KEY, or opencode.apiKey in config.json";

/// What logging out is answered with.
pub const CREDENTIALS_MANAGED: &'static str = "OpenCode Go credentials are managed through environment variables or config.json";

/// What the status without a key is.
pub const NOT_AUTHENTICATED: &'static str = "Not authenticated";

/// The lines that the status with a key prints.
pub open spec fn status_lines(source: Seq<char>, base_url: Seq<char>) -> Seq<Seq<char>> {
    seq!["API key configured: true"@, "Source: "@ + source, "Base URL: "@ + base_url]
}

/// The provider's commands.
#[derive(Debug, Clone, Copy)]
pub struct OpenCodeCli;

impl OpenCodeCli {
    /// Logging in fails: keys are configured, not obtained.
    pub fn login(&self) -> (outcome: Result<(), String>)
        ensures
            outcome matches Err(error) && error@ == USES_API_KEY@,
            outcome matches Err(error) && error@
                == "OpenCode Go uses an API key; set CCP_OPENCODE_API_KEY, OPENCODE_API_KEY, or opencode.apiKey in config.json"@,
    {
        Err(USES_API_KEY.to_owned())
    }

    /// Logging in on a device fails as logging in does.
    pub fn device(&self) -> (outcome: Result<(), String>)
        ensures
            outcome matches Err(error) && error@ == USES_API_KEY@,
            outcome matches Err(error) && error@
                == "OpenCode Go uses an API key; set CCP_OPENCODE_API_KEY, OPENCODE_API_KEY, or opencode.apiKey in config.json"@,
    {
        self.login()
    }

    /// The lines to print where a key is configured, by the source that it comes from; without a
    /// source it fails.
    pub fn status(&self, source: Option<&str>, base_url: &str) -> (outcome: Result<
        Vec<String>,
        String,
    >)
        ensures
            match source {
                Some(source) => outcome matches Ok(lines) && texts(lines@)
                    == status_lines(source@, base_url@),
                None => outcome matches Err(error) && error@ == NOT_AUTHENTICATED@,
            },
            source matches Some(source) ==> {
                &&& outcome matches Ok(lines)
                &&& lines@.len() == 3
                &&& lines@[0]@ == "API key configured: true"@
                &&& lines@[1]@ == "Source: "@ + source@
                &&& lines@[2]@ == "Base URL: "@ + base_url@
            },
            source is None ==> (outcome matches Err(error) && error@ == "Not authenticated"@),
    {
        match source {
            Some(source) => {
                let mut lines: Vec<String> = Vec::new();
                lines.push("API key configured: true".to_owned());
                lines.push(join("Source: ", source));
                lines.push(join("Base URL: ", base_url));
                assert(texts(lines@) =~= status_lines(source@, base_url@));
                Ok(lines)
            },
            None => Err(NOT_AUTHENTICATED.to_owned()),
        }
    }

    /// Logging out fails: there is nothing kept here to forget.
    pub fn logout(&self) -> (outcome: Result<(), String>)
        ensures
            outcome matches Err(error) && error@ == CREDENTIALS_MANAGED@,
            outcome matches Err(error) && error@
                == "OpenCode Go credentials are managed through environment variables or config.json"@,
    {
        Err(CREDENTIALS_MANAGED.to_owned())
    }
}

/// The status shows what it was given: the key's source stands behind `Source: ` on the second
/// line and the base URL behind `Base URL: ` on the third. So two statuses are the same only
/// where their sources and their base URLs are.
pub proof fn law_status_shows_source_and_base_url(
    source: Seq<char>,
    base_url: Seq<char>,
    other_source: Seq<char>,
    other_base_url: Seq<char>,
)
    ensures
        status_lines(source, base_url).len() == 3,
        status_lines(source, base_url)[0] == "API key configured: true"@,
        status_lines(source, base_url)[1] == "Source: "@ + source,
        status_lines(source, base_url)[2] == "Base URL: "@ + base_url,
        status_lines(source, base_url)[1] == status_lines(other_source, other_base_url)[1]
            <==> source == other_source,
        status_lines(source, base_url)[2] == status_lines(other_source, other_base_url)[2]
            <==> base_url == other_base_url,
{
    lemma_same_tail("Source: "@, source, other_source);
    lemma_same_tail("Base URL: "@, base_url, other_base_url);
}

} // verus!
