use vstd::prelude::*;
use crate::text::{parse_unsigned, parsed_unsigned};

verus! {

pub const DEFAULT_PROMPT: &'static str = "The following is a conversation that 'User' is having with an AI assistant named 'Bot'. The assistant is helpful, creative, clever, and very friendly.";
pub const DEFAULT_YOUR_NAME: &'static str = "User";
pub const DEFAULT_THEIR_NAME: &'static str = "Bot";
pub const DEFAULT_MODEL_NAME: &'static str = "text-davinci-003";
pub const DEFAULT_TOKEN_LIMIT: u32 = 100;
pub const DEFAULT_EXPECTED_RESPONSE_TIME_MS: u64 = 5000;
pub const DEFAULT_PROMPT_CONTEXT_LENGTH: usize = 5;
pub const DEFAULT_DB_PATH: &'static str = "chatbot.db";
pub const DEFAULT_USER_INPUT_POLL_DURATION_MS: u64 = 10;

/// How the user talks to the bot.
#[derive(Clone, Copy, Debug, PartialEq, Eq, Structural)]
pub enum Action {
    /// Speak and hear audible responses.
    Call,
    /// Type messages and read responses in the terminal.
    Text,
}

/// The command-line arguments, as given.
#[derive(Debug)]
pub struct Args {
    pub action: Action,
    pub resume: bool,
    pub model: Option<String>,
    pub their_name: Option<String>,
    pub your_name: Option<String>,
    pub prompt: Option<String>,
    pub token_limit: Option<u32>,
    pub prompt_context_length: Option<usize>,
    pub db_path: Option<String>,
}

/// The characters of an optional string.
pub open spec fn opt_text(s: Option<String>) -> Option<Seq<char>> {
    match s {
        Some(t) => Some(t@),
        None => None,
    }
}

/// The characters of an optional string slice.
pub open spec fn opt_str(s: Option<&str>) -> Option<Seq<char>> {
    match s {
        Some(t) => Some(t@),
        None => None,
    }
}

fn borrow_text(s: &Option<String>) -> (r: Option<&str>)
    ensures
        opt_str(r) == opt_text(*s),
{
    match s {
        Some(t) => Some(t.as_str()),
        None => None,
    }
}

impl Args {
    pub fn action(&self) -> (r: Action)
        ensures
            r == self.action,
    {
        self.action
    }

    pub fn resume(&self) -> (r: bool)
        ensures
            r == self.resume,
    {
        self.resume
    }

    pub fn model(&self) -> (r: Option<&str>)
        ensures
            opt_str(r) == opt_text(self.model),
    {
        borrow_text(&self.model)
    }

    pub fn their_name(&self) -> (r: Option<&str>)
        ensures
            opt_str(r) == opt_text(self.their_name),
    {
        borrow_text(&self.their_name)
    }

    pub fn your_name(&self) -> (r: Option<&str>)
        ensures
            opt_str(r) == opt_text(self.your_name),
    {
        borrow_text(&self.your_name)
    }

    pub fn prompt(&self) -> (r: Option<&str>)
        ensures
            opt_str(r) == opt_text(self.prompt),
    {
        borrow_text(&self.prompt)
    }

    pub fn token_limit(&self) -> (r: Option<u32>)
        ensures
            r == self.token_limit,
    {
        self.token_limit
    }

    pub fn prompt_context_length(&self) -> (r: Option<usize>)
        ensures
            r == self.prompt_context_length,
    {
        self.prompt_context_length
    }

    pub fn db_path(&self) -> (r: Option<&str>)
        ensures
            opt_str(r) == opt_text(self.db_path),
    {
        borrow_text(&self.db_path)
    }
}

/// The values of the environment variables that configure a session, each
/// `None` where the variable is not set.
#[derive(Debug)]
pub struct EnvVars {
    pub your_name: Option<String>,
    pub their_name: Option<String>,
    pub starting_prompt: Option<String>,
    pub openai_model_name: Option<String>,
    pub expected_response_time: Option<String>,
    pub prompt_context_length: Option<String>,
    pub database_file_path: Option<String>,
    pub user_input_poll_duration: Option<String>,
    pub token_limit: Option<String>,
}

/// A configuration value that could not be used.
#[derive(Debug)]
pub enum ConfigError {
    /// The named environment variable does not hold a number in range.
    InvalidNumber { variable: String, value: String },
}

/// The resolved configuration of a session. Durations are in milliseconds.
#[derive(Debug)]
pub struct Env {
    your_name: String,
    their_name: String,
    starting_prompt: String,
    openai_model_name: String,
    expected_response_time: u64,
    prompt_context_length: usize,
    database_file_path: String,
    user_input_poll_duration: u64,
    token_limit: u32,
}

/// A text setting: the command line first, then the environment, then the default.
pub open spec fn pick_text(cli: Option<Seq<char>>, var: Option<Seq<char>>, default: Seq<char>) -> Seq<char> {
    match cli {
        Some(c) => c,
        None => match var {
            Some(v) => v,
            None => default,
        },
    }
}

/// Whether a numeric environment variable is set but does not hold a number
/// of at most `max`.
pub open spec fn malformed(var: Option<String>, max: nat) -> bool {
    match var {
        Some(v) => parsed_unsigned(v@, max) is None,
        None => false,
    }
}

/// A numeric setting taken from an environment variable, or the default.
pub open spec fn pick_number(var: Option<String>, max: nat, default: nat) -> nat {
    match var {
        Some(v) => match parsed_unsigned(v@, max) {
            Some(n) => n,
            None => default,
        },
        None => default,
    }
}

fn choose_text(cli: &Option<String>, var: &Option<String>, default: &str) -> (r: String)
    ensures
        r@ == pick_text(opt_text(*cli), opt_text(*var), default@),
{
    match cli {
        Some(c) => c.clone(),
        None => match var {
            Some(v) => v.clone(),
            None => String::from_str(default),
        },
    }
}

/// Reads a numeric environment variable: `Ok(None)` where it is not set.
fn read_number(name: &str, var: &Option<String>, max: u64) -> (r: Result<Option<u64>, ConfigError>)
    ensures
        r is Err <==> malformed(*var, max as nat),
        r matches Ok(n) ==> match *var {
            Some(v) => n == Some(pick_number(*var, max as nat, 0) as u64),
            None => n is None,
        },
        r matches Err(ConfigError::InvalidNumber { variable, value }) ==> variable@ == name@ && opt_text(*var) == Some(value@),
{
    match var {
        Some(v) => match parse_unsigned(v.as_str(), max) {
            Some(n) => Ok(Some(n)),
            None => Err(ConfigError::InvalidNumber { variable: String::from_str(name), value: v.clone() }),
        },
        None => Ok(None),
    }
}

impl Env {
    /// Resolves the configuration: each setting from the command line where it
    /// has one, else from the environment, else its default. Fails where a
    /// numeric environment variable that is consulted does not hold a number in
    /// range.
    pub fn new(args: &Args, vars: &EnvVars) -> (r: Result<Env, ConfigError>)
        ensures
            r is Err <==> (malformed(vars.expected_response_time, u64::MAX as nat)
                || (args.prompt_context_length is None && malformed(vars.prompt_context_length, usize::MAX as nat))
                || malformed(vars.user_input_poll_duration, u64::MAX as nat)
                || (args.token_limit is None && malformed(vars.token_limit, u32::MAX as nat))),
            r matches Ok(env) ==> {
                &&& env.your_name_spec() == pick_text(opt_text(args.your_name), opt_text(vars.your_name), DEFAULT_YOUR_NAME@)
                &&& env.their_name_spec() == pick_text(opt_text(args.their_name), opt_text(vars.their_name), DEFAULT_THEIR_NAME@)
                &&& env.starting_prompt_spec() == pick_text(opt_text(args.prompt), opt_text(vars.starting_prompt), DEFAULT_PROMPT@)
                &&& env.model_spec() == pick_text(opt_text(args.model), opt_text(vars.openai_model_name), DEFAULT_MODEL_NAME@)
                &&& env.database_file_path_spec() == pick_text(opt_text(args.db_path), opt_text(vars.database_file_path), DEFAULT_DB_PATH@)
                &&& env.expected_response_time_spec() == pick_number(vars.expected_response_time, u64::MAX as nat, DEFAULT_EXPECTED_RESPONSE_TIME_MS as nat)
                &&& env.user_input_poll_duration_spec() == pick_number(vars.user_input_poll_duration, u64::MAX as nat, DEFAULT_USER_INPUT_POLL_DURATION_MS as nat)
                &&& env.prompt_context_length_spec() == match args.prompt_context_length {
                    Some(n) => n as nat,
                    None => pick_number(vars.prompt_context_length, usize::MAX as nat, DEFAULT_PROMPT_CONTEXT_LENGTH as nat),
                }
                &&& env.token_limit_spec() == match args.token_limit {
                    Some(n) => n as nat,
                    None => pick_number(vars.token_limit, u32::MAX as nat, DEFAULT_TOKEN_LIMIT as nat),
                }
            },
    {
        let your_name = choose_text(&args.your_name, &vars.your_name, DEFAULT_YOUR_NAME);
        let their_name = choose_text(&args.their_name, &vars.their_name, DEFAULT_THEIR_NAME);
        let starting_prompt = choose_text(&args.prompt, &vars.starting_prompt, DEFAULT_PROMPT);
        let openai_model_name = choose_text(&args.model, &vars.openai_model_name, DEFAULT_MODEL_NAME);
        let database_file_path = choose_text(&args.db_path, &vars.database_file_path, DEFAULT_DB_PATH);
        let expected_response_time = match read_number("EXPECTED_RESPONSE_TIME", &vars.expected_response_time, u64::MAX) {
            Ok(Some(n)) => n,
            Ok(None) => DEFAULT_EXPECTED_RESPONSE_TIME_MS,
            Err(e) => return Err(e),
        };
        let prompt_context_length: usize = match args.prompt_context_length {
            Some(n) => n,
            None => match read_number("PROMPT_CONTEXT_LENGTH", &vars.prompt_context_length, usize::MAX as u64) {
                Ok(Some(n)) => n as usize,
                Ok(None) => DEFAULT_PROMPT_CONTEXT_LENGTH,
                Err(e) => return Err(e),
            },
        };
        let user_input_poll_duration = match read_number("USER_INPUT_POLL_DURATION", &vars.user_input_poll_duration, u64::MAX) {
            Ok(Some(n)) => n,
            Ok(None) => DEFAULT_USER_INPUT_POLL_DURATION_MS,
            Err(e) => return Err(e),
        };
        let token_limit: u32 = match args.token_limit {
            Some(n) => n,
            None => match read_number("TOKEN_LIMIT", &vars.token_limit, u32::MAX as u64) {
                Ok(Some(n)) => n as u32,
                Ok(None) => DEFAULT_TOKEN_LIMIT,
                Err(e) => return Err(e),
            },
        };
        Ok(Env {
            your_name,
            their_name,
            starting_prompt,
            openai_model_name,
            expected_response_time,
            prompt_context_length,
            database_file_path,
            user_input_poll_duration,
            token_limit,
        })
    }

    /// A configuration given value by value; durations in milliseconds.
    pub fn from_parts(
        your_name: String,
        their_name: String,
        starting_prompt: String,
        openai_model_name: String,
        expected_response_time: u64,
        prompt_context_length: usize,
        database_file_path: String,
        user_input_poll_duration: u64,
        token_limit: u32,
    ) -> (r: Env)
        ensures
            r.your_name_spec() == your_name@,
            r.their_name_spec() == their_name@,
            r.starting_prompt_spec() == starting_prompt@,
            r.model_spec() == openai_model_name@,
            r.expected_response_time_spec() == expected_response_time,
            r.prompt_context_length_spec() == prompt_context_length,
            r.database_file_path_spec() == database_file_path@,
            r.user_input_poll_duration_spec() == user_input_poll_duration,
            r.token_limit_spec() == token_limit,
    {
        Env {
            your_name,
            their_name,
            starting_prompt,
            openai_model_name,
            expected_response_time,
            prompt_context_length,
            database_file_path,
            user_input_poll_duration,
            token_limit,
        }
    }

    /// A copy of this configuration.
    pub fn duplicate(&self) -> (r: Env)
        ensures
            r == *self,
    {
        Env {
            your_name: self.your_name.clone(),
            their_name: self.their_name.clone(),
            starting_prompt: self.starting_prompt.clone(),
            openai_model_name: self.openai_model_name.clone(),
            expected_response_time: self.expected_response_time,
            prompt_context_length: self.prompt_context_length,
            database_file_path: self.database_file_path.clone(),
            user_input_poll_duration: self.user_input_poll_duration,
            token_limit: self.token_limit,
        }
    }

    pub closed spec fn your_name_spec(&self) -> Seq<char> {
        self.your_name@
    }

    pub closed spec fn their_name_spec(&self) -> Seq<char> {
        self.their_name@
    }

    pub closed spec fn starting_prompt_spec(&self) -> Seq<char> {
        self.starting_prompt@
    }

    pub closed spec fn model_spec(&self) -> Seq<char> {
        self.openai_model_name@
    }

    pub closed spec fn expected_response_time_spec(&self) -> u64 {
        self.expected_response_time
    }

    pub closed spec fn prompt_context_length_spec(&self) -> usize {
        self.prompt_context_length
    }

    pub closed spec fn database_file_path_spec(&self) -> Seq<char> {
        self.database_file_path@
    }

    pub closed spec fn user_input_poll_duration_spec(&self) -> u64 {
        self.user_input_poll_duration
    }

    pub closed spec fn token_limit_spec(&self) -> u32 {
        self.token_limit
    }

    pub fn your_name(&self) -> (r: &str)
        ensures
            r@ == self.your_name_spec(),
    {
        self.your_name.as_str()
    }

    pub fn their_name(&self) -> (r: &str)
        ensures
            r@ == self.their_name_spec(),
    {
        self.their_name.as_str()
    }

    pub fn starting_prompt(&self) -> (r: &str)
        ensures
            r@ == self.starting_prompt_spec(),
    {
        self.starting_prompt.as_str()
    }

    pub fn openai_model_name(&self) -> (r: &str)
        ensures
            r@ == self.model_spec(),
    {
        self.openai_model_name.as_str()
    }

    /// How long a response may take before it counts as slow, in milliseconds.
    pub fn expected_response_time(&self) -> (r: u64)
        ensures
            r == self.expected_response_time_spec(),
    {
        self.expected_response_time
    }

    /// How many of the latest messages a prompt includes.
    pub fn prompt_context_length(&self) -> (r: usize)
        ensures
            r == self.prompt_context_length_spec(),
    {
        self.prompt_context_length
    }

    /// The longest the frontend waits for one input event, in milliseconds.
    pub fn user_input_poll_duration(&self) -> (r: u64)
        ensures
            r == self.user_input_poll_duration_spec(),
    {
        self.user_input_poll_duration
    }

    pub fn database_file_path(&self) -> (r: &str)
        ensures
            r@ == self.database_file_path_spec(),
    {
        self.database_file_path.as_str()
    }

    pub fn token_limit(&self) -> (r: u32)
        ensures
            r == self.token_limit_spec(),
    {
        self.token_limit
    }
}

} // verus!
