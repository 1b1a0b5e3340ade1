//! The command line as plain values, and what the program decides from it
//! before it starts.

use vstd::prelude::*;
use vstd::string::StringExecFns;
use crate::error::AppError;

verus! {

/// The arguments of the program.
#[derive(Debug, PartialEq, Eq)]
pub struct Cli {
    /// OpenRouter API key.
    pub openrouter_api_key: Option<String>,
    /// OpenRouter base URL.
    pub openrouter_base_url: String,
    /// OpenRouter model ID.
    pub model: String,
    /// Max tokens.
    pub max_tokens: i64,
    /// MySQL URL.
    pub mysql_url: Option<String>,
    /// PostgreSQL URL.
    pub postgres_url: Option<String>,
    pub command: CliCommand,
}

/// What the program is asked to run.
#[derive(Debug, PartialEq, Eq)]
pub enum CliCommand {
    Chat {
        /// The system prompt to use; an empty one asks for the built-in prompt
        /// to be shown.
        system_prompt: Option<String>,
    },
    Mcp {
        /// Run as a server using SSE.
        sse: bool,
        /// The port to listen on.
        port: u16,
    },
}

/// The database that the program talks to.
#[derive(Debug, PartialEq, Eq)]
pub enum Database {
    MySql(String),
    Postgres(String),
}

/// What to do with the system prompt.
#[derive(Debug, PartialEq, Eq)]
pub enum PromptChoice {
    /// Print the built-in prompt and stop.
    Show(String),
    /// Go on with this prompt.
    Use(String),
}

impl Cli {
    /// The database to connect to. A MySQL URL takes precedence over a
    /// PostgreSQL one; with neither the program cannot start.
    pub fn database(&self) -> (chosen: Result<Database, AppError>)
        ensures
            match chosen {
                Ok(Database::MySql(url)) => self.mysql_url == Some(url),
                Ok(Database::Postgres(url)) => self.mysql_url is None && self.postgres_url
                    == Some(url),
                Err(error) => self.mysql_url is None && self.postgres_url is None
                    && error is MissingDatabaseUrl,
            },
    {
        match &self.mysql_url {
            Some(url) => Ok(Database::MySql(url.clone())),
            None => match &self.postgres_url {
                Some(url) => Ok(Database::Postgres(url.clone())),
                None => Err(AppError::MissingDatabaseUrl),
            },
        }
    }

    /// The API key, which a chat cannot do without.
    pub fn api_key(&self) -> (key: Result<String, AppError>)
        ensures
            match key {
                Ok(key) => self.openrouter_api_key == Some(key),
                Err(error) => self.openrouter_api_key is None && error is MissingApiKey,
            },
    {
        match &self.openrouter_api_key {
            Some(key) => Ok(key.clone()),
            None => Err(AppError::MissingApiKey),
        }
    }
}

impl CliCommand {
    /// What to do with the system prompt, given the built-in one. A chat that
    /// is given an empty prompt asks for the built-in one to be shown; a chat
    /// that is given any other uses it; everything else uses the built-in one.
    pub fn system_prompt(&self, built_in: &str) -> (choice: PromptChoice)
        ensures
            match *self {
                CliCommand::Chat { system_prompt: Some(given) } => if given@.len() == 0 {
                    choice matches PromptChoice::Show(text) && text@ == built_in@
                } else {
                    choice matches PromptChoice::Use(text) && text@ == given@
                },
                _ => choice matches PromptChoice::Use(text) && text@ == built_in@,
            },
    {
        match self {
            CliCommand::Chat { system_prompt: Some(given) } => {
                if given.as_str().is_empty() {
                    PromptChoice::Show(String::from_str(built_in))
                } else {
                    PromptChoice::Use(given.clone())
                }
            },
            _ => PromptChoice::Use(String::from_str(built_in)),
        }
    }
}

} // verus!
