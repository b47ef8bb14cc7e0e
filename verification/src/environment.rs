//! Environment overrides of the process configuration.
//!
//! The variables are handed in as a snapshot. Texts that another component has to read (identities,
//! floating-point numbers, socket addresses) come with what it read them as.

use vstd::prelude::*;

use crate::address::SocketAddress;
use crate::config::{
    DevelopmentCanvasConfig, Dimension, PdfInspectionLimits, ServerConfig, WebSocketAdapterConfig,
    WebSocketListenerConfig,
};
use crate::delivery_config::AssetDeliveryConfig;
use crate::error::{ServerError, ServerErrorView};
use crate::text::{
    chars_of, lemma_unsigned_value, parse_signed, parse_unsigned, same_text, signed_value, split,
    split_text, string_of, string_texts, texts, trim, trim_text, unsigned_value,
};

verus! {

/// One environment variable.
#[derive(Debug)]
pub struct EnvVariable {
    /// The name.
    pub name: String,
    /// The value, or none where it is not valid UTF-8.
    pub value: Option<String>,
}

/// What other components read the variables' texts as: none where a text is refused.
#[derive(Debug)]
pub struct EnvReadings {
    /// `ORBITRELAY_NODE_ID` as a node identifier.
    pub node_id: Option<String>,
    /// `ORBITRELAY_DEVELOPMENT_CANVAS_SESSION_ID` as a Session identifier.
    pub session_id: Option<String>,
    /// `ORBITRELAY_DEVELOPMENT_CANVAS_ID` as a Canvas identifier.
    pub canvas_id: Option<String>,
    /// `ORBITRELAY_DEVELOPMENT_CANVAS_LAYER_ID` as a Layer identifier.
    pub layer_id: Option<String>,
    /// `ORBITRELAY_DEVELOPMENT_CANVAS_WIDTH` as a number.
    pub width: Option<Dimension>,
    /// `ORBITRELAY_DEVELOPMENT_CANVAS_HEIGHT` as a number.
    pub height: Option<Dimension>,
    /// `ORBITRELAY_BIND_ADDR` as a socket address.
    pub bind_addr: Option<SocketAddress>,
    /// `ORBITRELAY_ASSET_LISTEN_ADDR` as a socket address.
    pub asset_listen_addr: Option<SocketAddress>,
}

/// The value of the variable `name`, if it is set: none inside where it is not valid UTF-8.
pub open spec fn variable(env: Seq<EnvVariable>, name: Seq<char>) -> Option<Option<String>>
    decreases env.len(),
{
    if env.len() == 0 {
        None
    } else if env[0].name@ == name {
        Some(env[0].value)
    } else {
        variable(env.skip(1), name)
    }
}

/// Whether the variable `name` is set.
pub open spec fn is_set(env: Seq<EnvVariable>, name: Seq<char>) -> bool {
    variable(env, name) is Some
}

/// The text of a variable that is set to valid UTF-8.
pub open spec fn variable_text(env: Seq<EnvVariable>, name: Seq<char>) -> Seq<char> {
    variable(env, name)->0->0@
}

/// What is wrong with a variable of any text.
pub open spec fn text_problem(env: Seq<EnvVariable>, name: Seq<char>) -> Option<Seq<char>> {
    if variable(env, name) == Some(None::<String>) {
        Some(name + " is not valid UTF-8"@)
    } else {
        None
    }
}

/// What is wrong with a variable whose text has to meet a condition, and otherwise has `message`.
pub open spec fn checked_problem(
    env: Seq<EnvVariable>,
    name: Seq<char>,
    met: bool,
    message: Seq<char>,
) -> Option<Seq<char>> {
    if text_problem(env, name) is Some {
        text_problem(env, name)
    } else if is_set(env, name) && !met {
        Some(message)
    } else {
        None
    }
}

/// What is wrong with a variable that holds a number up to `max`.
pub open spec fn number_problem(env: Seq<EnvVariable>, name: Seq<char>, max: int) -> Option<
    Seq<char>,
> {
    checked_problem(
        env,
        name,
        unsigned_value(variable_text(env, name), max) is Some,
        name + " must be a positive integer"@,
    )
}

/// The truth value that a text writes.
pub open spec fn bool_value(text: Seq<char>) -> Option<bool> {
    if text == "true"@ || text == "1"@ {
        Some(true)
    } else if text == "false"@ || text == "0"@ {
        Some(false)
    } else {
        None
    }
}

/// What is wrong with a variable that holds a truth value.
pub open spec fn bool_problem(env: Seq<EnvVariable>, name: Seq<char>) -> Option<Seq<char>> {
    checked_problem(
        env,
        name,
        bool_value(variable_text(env, name)) is Some,
        name + " must be true, false, 1, or 0"@,
    )
}

/// The text of the variable, or `default` where it is not set.
pub open spec fn text_or(
    env: Seq<EnvVariable>,
    name: Seq<char>,
    default: Option<String>,
) -> Option<String> {
    match variable(env, name) {
        Some(value) => value,
        None => default,
    }
}

/// The number that the variable holds, or `default` where it is not set.
pub open spec fn number_or(env: Seq<EnvVariable>, name: Seq<char>, max: int, default: int) -> int {
    if is_set(env, name) {
        unsigned_value(variable_text(env, name), max)->0
    } else {
        default
    }
}

/// The truth value that the variable holds, or `default` where it is not set.
pub open spec fn bool_or(env: Seq<EnvVariable>, name: Seq<char>, default: bool) -> bool {
    if is_set(env, name) {
        bool_value(variable_text(env, name))->0
    } else {
        default
    }
}

/// What the variable was read as, or `default` where it is not set.
pub open spec fn reading_or<T>(
    env: Seq<EnvVariable>,
    name: Seq<char>,
    reading: Option<T>,
    default: T,
) -> T {
    if is_set(env, name) {
        reading->0
    } else {
        default
    }
}

/// The first of two problems.
pub open spec fn either(first: Option<Seq<char>>, second: Option<Seq<char>>) -> Option<Seq<char>> {
    if first is Some {
        first
    } else {
        second
    }
}

/// The origins that a comma-separated list names: its parts without surrounding white space, empty
/// ones left out.
pub open spec fn origins_in(parts: Seq<Seq<char>>) -> Seq<Seq<char>>
    decreases parts.len(),
{
    if parts.len() == 0 {
        Seq::empty()
    } else if trim_text(parts.last()).len() == 0 {
        origins_in(parts.drop_last())
    } else {
        origins_in(parts.drop_last()).push(trim_text(parts.last()))
    }
}

/// Reads a variable of any text.
fn read_utf8_env(env: &[EnvVariable], name: &str) -> (r: Result<Option<String>, ServerError>)
    ensures
        match r {
            Ok(Some(text)) => variable(env@, name@) == Some(Some(text)),
            Ok(None) => !is_set(env@, name@),
            Err(error) => text_problem(env@, name@) is Some && error@ == ServerErrorView::Config(
                text_problem(env@, name@)->0,
            ),
        },
{
    let mut i: usize = 0;
    assert(env@.skip(0) =~= env@);
    while i < env.len()
        invariant
            i <= env@.len(),
            variable(env@, name@) == variable(env@.skip(i as int), name@),
        decreases env@.len() - i,
    {
        assert(env@.skip(i as int)[0] == env@[i as int]);
        assert(env@.skip(i as int).skip(1) =~= env@.skip(i + 1));
        if same_text(env[i].name.as_str(), name) {
            return match &env[i].value {
                Some(value) => Ok(Some(value.clone())),
                None => Err(
                    ServerError::config(name.to_owned().concat(" is not valid UTF-8").as_str()),
                ),
            };
        }
        i = i + 1;
    }
    Ok(None)
}

/// Reads a truth value: `true`, `1`, `false` or `0`.
pub fn parse_bool_env(name: &str, value: &str) -> (r: Result<bool, ServerError>)
    ensures
        match r {
            Ok(truth) => bool_value(value@) == Some(truth),
            Err(error) => bool_value(value@) is None && error@ == ServerErrorView::Config(
                name@ + " must be true, false, 1, or 0"@,
            ),
        },
{
    if same_text(value, "true") || same_text(value, "1") {
        Ok(true)
    } else if same_text(value, "false") || same_text(value, "0") {
        proof {
            reveal_strlit("true");
            reveal_strlit("1");
            reveal_strlit("false");
            reveal_strlit("0");
            assert("0"@[0] != "1"@[0]);
        }
        Ok(false)
    } else {
        Err(
            ServerError::config(
                name.to_owned().concat(" must be true, false, 1, or 0").as_str(),
            ),
        )
    }
}

/// Reads a number up to `max`: an optional plus sign and decimal digits.
pub fn parse_number_env(name: &str, value: &str, max: u64) -> (r: Result<u64, ServerError>)
    ensures
        match r {
            Ok(number) => unsigned_value(value@, max as int) == Some(number as int) && number
                <= max,
            Err(error) => unsigned_value(value@, max as int) is None && error@
                == ServerErrorView::Config(name@ + " must be a positive integer"@),
        },
{
    let text = chars_of(value);
    match parse_unsigned(text.as_slice(), max) {
        Some(number) => Ok(number),
        None => Err(
            ServerError::config(name.to_owned().concat(" must be a positive integer").as_str()),
        ),
    }
}

/// Reads a variable that holds a number up to `max`, or keeps `default`.
fn read_number(env: &[EnvVariable], name: &str, max: u64, default: u64) -> (r: Result<
    u64,
    ServerError,
>)
    requires
        default <= max,
    ensures
        match r {
            Ok(number) => number_problem(env@, name@, max as int) is None && number == number_or(
                env@,
                name@,
                max as int,
                default as int,
            ) && number <= max,
            Err(error) => number_problem(env@, name@, max as int) is Some && error@
                == ServerErrorView::Config(number_problem(env@, name@, max as int)->0),
        },
{
    match read_utf8_env(env, name) {
        Ok(Some(text)) => parse_number_env(name, text.as_str(), max),
        Ok(None) => Ok(default),
        Err(error) => Err(error),
    }
}

/// Reads a variable that holds a size, or keeps `default`.
fn read_size(env: &[EnvVariable], name: &str, default: usize) -> (r: Result<usize, ServerError>)
    ensures
        match r {
            Ok(number) => number_problem(env@, name@, usize::MAX as int) is None && number
                == number_or(env@, name@, usize::MAX as int, default as int),
            Err(error) => number_problem(env@, name@, usize::MAX as int) is Some && error@
                == ServerErrorView::Config(number_problem(env@, name@, usize::MAX as int)->0),
        },
{
    match read_number(env, name, usize::MAX as u64, default as u64) {
        Ok(number) => Ok(number as usize),
        Err(error) => Err(error),
    }
}

/// Reads a variable that holds a truth value, or keeps `default`.
fn read_bool(env: &[EnvVariable], name: &str, default: bool) -> (r: Result<bool, ServerError>)
    ensures
        match r {
            Ok(truth) => bool_problem(env@, name@) is None && truth == bool_or(
                env@,
                name@,
                default,
            ),
            Err(error) => bool_problem(env@, name@) is Some && error@ == ServerErrorView::Config(
                bool_problem(env@, name@)->0,
            ),
        },
{
    match read_utf8_env(env, name) {
        Ok(Some(text)) => parse_bool_env(name, text.as_str()),
        Ok(None) => Ok(default),
        Err(error) => Err(error),
    }
}

/// Reads a variable of any text, or keeps `default`.
fn read_text(env: &[EnvVariable], name: &str, default: Option<String>) -> (r: Result<
    Option<String>,
    ServerError,
>)
    ensures
        match r {
            Ok(text) => text_problem(env@, name@) is None && text == text_or(env@, name@, default),
            Err(error) => text_problem(env@, name@) is Some && error@ == ServerErrorView::Config(
                text_problem(env@, name@)->0,
            ),
        },
{
    match read_utf8_env(env, name) {
        Ok(Some(text)) => Ok(Some(text)),
        Ok(None) => Ok(default),
        Err(error) => Err(error),
    }
}

/// Takes what a variable was read as, or keeps `default`.
fn read_reading<T>(
    env: &[EnvVariable],
    name: &str,
    reading: Option<T>,
    default: T,
    message: &str,
) -> (r: Result<T, ServerError>)
    ensures
        match r {
            Ok(value) => checked_problem(env@, name@, reading is Some, message@) is None && value
                == reading_or(env@, name@, reading, default),
            Err(error) => checked_problem(env@, name@, reading is Some, message@) is Some && error@
                == ServerErrorView::Config(
                checked_problem(env@, name@, reading is Some, message@)->0,
            ),
        },
{
    match read_utf8_env(env, name) {
        Ok(Some(_)) => match reading {
            Some(value) => Ok(value),
            None => Err(ServerError::config(message)),
        },
        Ok(None) => Ok(default),
        Err(error) => Err(error),
    }
}

/// Takes the identifier that a variable was read as, or keeps `default`.
fn read_identifier(
    env: &[EnvVariable],
    name: &str,
    reading: Option<String>,
    default: Option<String>,
    message: &str,
) -> (r: Result<Option<String>, ServerError>)
    ensures
        match r {
            Ok(value) => checked_problem(env@, name@, reading is Some, message@) is None && value
                == if is_set(env@, name@) {
                reading
            } else {
                default
            },
            Err(error) => checked_problem(env@, name@, reading is Some, message@) is Some && error@
                == ServerErrorView::Config(
                checked_problem(env@, name@, reading is Some, message@)->0,
            ),
        },
{
    match read_utf8_env(env, name) {
        Ok(Some(_)) => match reading {
            Some(value) => Ok(Some(value)),
            None => Err(ServerError::config(message)),
        },
        Ok(None) => Ok(default),
        Err(error) => Err(error),
    }
}

fn copy_text(text: &Option<String>) -> (r: Option<String>)
    ensures
        r == *text,
{
    match text {
        Some(text) => Some(text.clone()),
        None => None,
    }
}

/// Reads the origins that a comma-separated list names.
fn parse_origins(value: &str) -> (r: Vec<String>)
    ensures
        string_texts(r@) == origins_in(split_text(value@, seq![','])),
{
    let text = chars_of(value);
    let separator: [char; 1] = [','];
    let pattern = separator.as_slice();
    assert(pattern@ =~= seq![',']);
    let parts = split(text.as_slice(), pattern);
    let ghost all = split_text(value@, seq![',']);
    let mut r: Vec<String> = Vec::new();
    let mut i: usize = 0;
    assert(all.take(0) =~= Seq::<Seq<char>>::empty());
    assert(string_texts(r@) =~= Seq::<Seq<char>>::empty());
    assert(parts@.len() == all.len());
    while i < parts.len()
        invariant
            i <= parts@.len(),
            parts@.len() == all.len(),
            texts(parts@) == all,
            string_texts(r@) == origins_in(all.take(i as int)),
        decreases parts@.len() - i,
    {
        assert(texts(parts@)[i as int] == parts@[i as int]@);
        assert(all.take(i + 1).drop_last() =~= all.take(i as int));
        assert(all.take(i + 1).last() == all[i as int]);
        let origin = trim(parts[i].as_slice());
        if origin.len() > 0 {
            let ghost before = string_texts(r@);
            r.push(string_of(origin.as_slice()));
            assert(string_texts(r@) =~= before.push(origin@));
        }
        i = i + 1;
    }
    assert(all.take(i as int) =~= all);
    r
}

/// The first thing wrong with the variables of the process and its stores.
pub open spec fn process_problem(env: Seq<EnvVariable>, readings: EnvReadings) -> Option<
    Seq<char>,
> {
    let problem = checked_problem(
        env,
        "ORBITRELAY_NODE_ID"@,
        readings.node_id is Some,
        "ORBITRELAY_NODE_ID is not a valid node ID"@,
    );
    let problem = either(
        problem,
        number_problem(env, "ORBITRELAY_SUBSCRIPTION_QUEUE_CAPACITY"@, usize::MAX as int),
    );
    let problem = either(
        problem,
        number_problem(env, "ORBITRELAY_HISTORY_STORE_SCAN_LIMIT"@, usize::MAX as int),
    );
    let problem = either(problem, text_problem(env, "ORBITRELAY_EVENT_STORE_PATH"@));
    let problem = either(problem, text_problem(env, "ORBITRELAY_ASSET_STORE_DIR"@));
    let problem = either(problem, text_problem(env, "ORBITRELAY_CATALOG_STORE_PATH"@));
    let problem = either(
        problem,
        number_problem(env, "ORBITRELAY_SQLITE_COMMAND_QUEUE_CAPACITY"@, usize::MAX as int),
    );
    let problem = either(problem, bool_problem(env, "ORBITRELAY_DEVELOPMENT_MODE"@));
    problem
}

/// The configuration with the overrides of the process and its stores.
pub open spec fn process_loaded(
    env: Seq<EnvVariable>,
    readings: EnvReadings,
    config: ServerConfig,
) -> ServerConfig {
    ServerConfig {
        node_id: if is_set(env, "ORBITRELAY_NODE_ID"@) {
            readings.node_id
        } else {
            config.node_id
        },
        subscription_queue_capacity: number_or(
            env,
            "ORBITRELAY_SUBSCRIPTION_QUEUE_CAPACITY"@,
            usize::MAX as int,
            config.subscription_queue_capacity as int,
        ) as usize,
        history_store_scan_limit: number_or(
            env,
            "ORBITRELAY_HISTORY_STORE_SCAN_LIMIT"@,
            usize::MAX as int,
            config.history_store_scan_limit as int,
        ) as usize,
        event_store_path: text_or(env, "ORBITRELAY_EVENT_STORE_PATH"@, config.event_store_path),
        asset_store_root: text_or(env, "ORBITRELAY_ASSET_STORE_DIR"@, config.asset_store_root),
        catalog_store_path: text_or(
            env,
            "ORBITRELAY_CATALOG_STORE_PATH"@,
            config.catalog_store_path,
        ),
        sqlite_command_queue_capacity: number_or(
            env,
            "ORBITRELAY_SQLITE_COMMAND_QUEUE_CAPACITY"@,
            usize::MAX as int,
            config.sqlite_command_queue_capacity as int,
        ) as usize,
        development_mode: bool_or(env, "ORBITRELAY_DEVELOPMENT_MODE"@, config.development_mode),
        ..config
    }
}

/// Reads the overrides of the process and its stores.
fn load_process(
    env: &[EnvVariable],
    readings: &EnvReadings,
    config: ServerConfig,
) -> (r: Result<ServerConfig, ServerError>)
    ensures
        match r {
            Ok(loaded) => process_problem(env@, *readings) is None && loaded == process_loaded(
                env@,
                *readings,
                config,
            ),
            Err(error) => process_problem(env@, *readings) is Some && error@ == ServerErrorView::Config(
                process_problem(env@, *readings)->0,
            ),
        },
{
    let node_id = match read_identifier(
        env,
        "ORBITRELAY_NODE_ID",
        copy_text(&readings.node_id),
        config.node_id,
        "ORBITRELAY_NODE_ID is not a valid node ID",
    ) {
        Ok(value) => value,
        Err(error) => {
            return Err(error);
        },
    };
    let subscription_queue_capacity = match read_size(
        env,
        "ORBITRELAY_SUBSCRIPTION_QUEUE_CAPACITY",
        config.subscription_queue_capacity,
    ) {
        Ok(value) => value,
        Err(error) => {
            return Err(error);
        },
    };
    let history_store_scan_limit = match read_size(
        env,
        "ORBITRELAY_HISTORY_STORE_SCAN_LIMIT",
        config.history_store_scan_limit,
    ) {
        Ok(value) => value,
        Err(error) => {
            return Err(error);
        },
    };
    let event_store_path = match read_text(env, "ORBITRELAY_EVENT_STORE_PATH", config.event_store_path) {
        Ok(value) => value,
        Err(error) => {
            return Err(error);
        },
    };
    let asset_store_root = match read_text(env, "ORBITRELAY_ASSET_STORE_DIR", config.asset_store_root) {
        Ok(value) => value,
        Err(error) => {
            return Err(error);
        },
    };
    let catalog_store_path = match read_text(
        env,
        "ORBITRELAY_CATALOG_STORE_PATH",
        config.catalog_store_path,
    ) {
        Ok(value) => value,
        Err(error) => {
            return Err(error);
        },
    };
    let sqlite_command_queue_capacity = match read_size(
        env,
        "ORBITRELAY_SQLITE_COMMAND_QUEUE_CAPACITY",
        config.sqlite_command_queue_capacity,
    ) {
        Ok(value) => value,
        Err(error) => {
            return Err(error);
        },
    };
    let development_mode = match read_bool(env, "ORBITRELAY_DEVELOPMENT_MODE", config.development_mode) {
        Ok(value) => value,
        Err(error) => {
            return Err(error);
        },
    };
    Ok(
        ServerConfig {
            node_id,
            subscription_queue_capacity,
            history_store_scan_limit,
            event_store_path,
            asset_store_root,
            catalog_store_path,
            sqlite_command_queue_capacity,
            development_mode,
            ..config
        },
    )
}

/// The first thing wrong with the variables of the development Canvas.
pub open spec fn canvas_problem(env: Seq<EnvVariable>, readings: EnvReadings) -> Option<
    Seq<char>,
> {
    let problem = checked_problem(
        env,
        "ORBITRELAY_DEVELOPMENT_CANVAS_SESSION_ID"@,
        readings.session_id is Some,
        "ORBITRELAY_DEVELOPMENT_CANVAS_SESSION_ID is not a valid SessionId"@,
    );
    let problem = either(
        problem,
        checked_problem(
            env,
            "ORBITRELAY_DEVELOPMENT_CANVAS_ID"@,
            readings.canvas_id is Some,
            "ORBITRELAY_DEVELOPMENT_CANVAS_ID is not a valid CanvasId"@,
        ),
    );
    let problem = either(
        problem,
        checked_problem(
            env,
            "ORBITRELAY_DEVELOPMENT_CANVAS_LAYER_ID"@,
            readings.layer_id is Some,
            "ORBITRELAY_DEVELOPMENT_CANVAS_LAYER_ID is not a valid LayerId"@,
        ),
    );
    let problem = either(
        problem,
        checked_problem(
            env,
            "ORBITRELAY_DEVELOPMENT_CANVAS_WIDTH"@,
            readings.width is Some,
            "ORBITRELAY_DEVELOPMENT_CANVAS_WIDTH must be a number"@,
        ),
    );
    let problem = either(
        problem,
        checked_problem(
            env,
            "ORBITRELAY_DEVELOPMENT_CANVAS_HEIGHT"@,
            readings.height is Some,
            "ORBITRELAY_DEVELOPMENT_CANVAS_HEIGHT must be a number"@,
        ),
    );
    problem
}

/// The development Canvas with its overrides.
pub open spec fn canvas_loaded(
    env: Seq<EnvVariable>,
    readings: EnvReadings,
    config: DevelopmentCanvasConfig,
) -> DevelopmentCanvasConfig {
    DevelopmentCanvasConfig {
        session_id: if is_set(env, "ORBITRELAY_DEVELOPMENT_CANVAS_SESSION_ID"@) {
            readings.session_id
        } else {
            config.session_id
        },
        canvas_id: if is_set(env, "ORBITRELAY_DEVELOPMENT_CANVAS_ID"@) {
            readings.canvas_id
        } else {
            config.canvas_id
        },
        layer_id: if is_set(env, "ORBITRELAY_DEVELOPMENT_CANVAS_LAYER_ID"@) {
            readings.layer_id
        } else {
            config.layer_id
        },
        width: reading_or(
            env,
            "ORBITRELAY_DEVELOPMENT_CANVAS_WIDTH"@,
            readings.width,
            config.width,
        ),
        height: reading_or(
            env,
            "ORBITRELAY_DEVELOPMENT_CANVAS_HEIGHT"@,
            readings.height,
            config.height,
        ),
        ..config
    }
}

/// Reads the overrides of the development Canvas.
fn load_canvas(
    env: &[EnvVariable],
    readings: &EnvReadings,
    config: DevelopmentCanvasConfig,
) -> (r: Result<DevelopmentCanvasConfig, ServerError>)
    ensures
        match r {
            Ok(loaded) => canvas_problem(env@, *readings) is None && loaded == canvas_loaded(
                env@,
                *readings,
                config,
            ),
            Err(error) => canvas_problem(env@, *readings) is Some && error@ == ServerErrorView::Config(
                canvas_problem(env@, *readings)->0,
            ),
        },
{
    let session_id = match read_identifier(
        env,
        "ORBITRELAY_DEVELOPMENT_CANVAS_SESSION_ID",
        copy_text(&readings.session_id),
        config.session_id,
        "ORBITRELAY_DEVELOPMENT_CANVAS_SESSION_ID is not a valid SessionId",
    ) {
        Ok(value) => value,
        Err(error) => {
            return Err(error);
        },
    };
    let canvas_id = match read_identifier(
        env,
        "ORBITRELAY_DEVELOPMENT_CANVAS_ID",
        copy_text(&readings.canvas_id),
        config.canvas_id,
        "ORBITRELAY_DEVELOPMENT_CANVAS_ID is not a valid CanvasId",
    ) {
        Ok(value) => value,
        Err(error) => {
            return Err(error);
        },
    };
    let layer_id = match read_identifier(
        env,
        "ORBITRELAY_DEVELOPMENT_CANVAS_LAYER_ID",
        copy_text(&readings.layer_id),
        config.layer_id,
        "ORBITRELAY_DEVELOPMENT_CANVAS_LAYER_ID is not a valid LayerId",
    ) {
        Ok(value) => value,
        Err(error) => {
            return Err(error);
        },
    };
    let width = match read_reading(
        env,
        "ORBITRELAY_DEVELOPMENT_CANVAS_WIDTH",
        readings.width,
        config.width,
        "ORBITRELAY_DEVELOPMENT_CANVAS_WIDTH must be a number",
    ) {
        Ok(value) => value,
        Err(error) => {
            return Err(error);
        },
    };
    let height = match read_reading(
        env,
        "ORBITRELAY_DEVELOPMENT_CANVAS_HEIGHT",
        readings.height,
        config.height,
        "ORBITRELAY_DEVELOPMENT_CANVAS_HEIGHT must be a number",
    ) {
        Ok(value) => value,
        Err(error) => {
            return Err(error);
        },
    };
    Ok(
        DevelopmentCanvasConfig {
            session_id,
            canvas_id,
            layer_id,
            width,
            height,
            ..config
        },
    )
}

/// The path that the variable names, or `default` where it is not set.
pub open spec fn path_or(env: Seq<EnvVariable>, name: Seq<char>, default: String) -> String {
    if is_set(env, name) {
        variable(env, name)->0->0
    } else {
        default
    }
}

/// Reads a variable that holds a path, or keeps `default`.
fn read_path(env: &[EnvVariable], name: &str, default: String) -> (r: Result<String, ServerError>)
    ensures
        match r {
            Ok(path) => text_problem(env@, name@) is None && path == path_or(env@, name@, default),
            Err(error) => text_problem(env@, name@) is Some && error@ == ServerErrorView::Config(
                text_problem(env@, name@)->0,
            ),
        },
{
    match read_utf8_env(env, name) {
        Ok(Some(text)) => Ok(text),
        Ok(None) => Ok(default),
        Err(error) => Err(error),
    }
}

/// The first thing wrong with the variables of the WebSocket listener.
pub open spec fn listener_problem(env: Seq<EnvVariable>, readings: EnvReadings) -> Option<
    Seq<char>,
> {
    let problem = checked_problem(
        env,
        "ORBITRELAY_BIND_ADDR"@,
        readings.bind_addr is Some,
        "ORBITRELAY_BIND_ADDR is not a valid socket address"@,
    );
    let problem = either(problem, text_problem(env, "ORBITRELAY_WEBSOCKET_PATH"@));
    let problem = either(
        problem,
        number_problem(env, "ORBITRELAY_MAX_CONNECTIONS"@, usize::MAX as int),
    );
    let problem = either(
        problem,
        number_problem(env, "ORBITRELAY_HANDSHAKE_TIMEOUT_MILLISECONDS"@, u64::MAX as int),
    );
    let problem = either(
        problem,
        number_problem(
            env,
            "ORBITRELAY_SHUTDOWN_GRACE_PERIOD_MILLISECONDS"@,
            u64::MAX as int,
        ),
    );
    problem
}

/// The WebSocket listener settings with their overrides.
pub open spec fn listener_loaded(
    env: Seq<EnvVariable>,
    readings: EnvReadings,
    config: WebSocketListenerConfig,
) -> WebSocketListenerConfig {
    WebSocketListenerConfig {
        bind_addr: reading_or(
            env,
            "ORBITRELAY_BIND_ADDR"@,
            readings.bind_addr,
            config.bind_addr,
        ),
        websocket_path: path_or(env, "ORBITRELAY_WEBSOCKET_PATH"@, config.websocket_path),
        max_connections: number_or(
            env,
            "ORBITRELAY_MAX_CONNECTIONS"@,
            usize::MAX as int,
            config.max_connections as int,
        ) as usize,
        handshake_timeout_milliseconds: number_or(
            env,
            "ORBITRELAY_HANDSHAKE_TIMEOUT_MILLISECONDS"@,
            u64::MAX as int,
            config.handshake_timeout_milliseconds as int,
        ) as u64,
        shutdown_grace_period_milliseconds: number_or(
            env,
            "ORBITRELAY_SHUTDOWN_GRACE_PERIOD_MILLISECONDS"@,
            u64::MAX as int,
            config.shutdown_grace_period_milliseconds as int,
        ) as u64,
        ..config
    }
}

/// Reads the overrides of the WebSocket listener.
fn load_listener(
    env: &[EnvVariable],
    readings: &EnvReadings,
    config: WebSocketListenerConfig,
) -> (r: Result<WebSocketListenerConfig, ServerError>)
    ensures
        match r {
            Ok(loaded) => listener_problem(env@, *readings) is None && loaded == listener_loaded(
                env@,
                *readings,
                config,
            ),
            Err(error) => listener_problem(env@, *readings) is Some && error@ == ServerErrorView::Config(
                listener_problem(env@, *readings)->0,
            ),
        },
{
    let bind_addr = match read_reading(
        env,
        "ORBITRELAY_BIND_ADDR",
        readings.bind_addr,
        config.bind_addr,
        "ORBITRELAY_BIND_ADDR is not a valid socket address",
    ) {
        Ok(value) => value,
        Err(error) => {
            return Err(error);
        },
    };
    let websocket_path = match read_path(env, "ORBITRELAY_WEBSOCKET_PATH", config.websocket_path) {
        Ok(value) => value,
        Err(error) => {
            return Err(error);
        },
    };
    let max_connections = match read_size(env, "ORBITRELAY_MAX_CONNECTIONS", config.max_connections) {
        Ok(value) => value,
        Err(error) => {
            return Err(error);
        },
    };
    let handshake_timeout_milliseconds = match read_number(
        env,
        "ORBITRELAY_HANDSHAKE_TIMEOUT_MILLISECONDS",
        u64::MAX,
        config.handshake_timeout_milliseconds,
    ) {
        Ok(value) => value,
        Err(error) => {
            return Err(error);
        },
    };
    let shutdown_grace_period_milliseconds = match read_number(
        env,
        "ORBITRELAY_SHUTDOWN_GRACE_PERIOD_MILLISECONDS",
        u64::MAX,
        config.shutdown_grace_period_milliseconds,
    ) {
        Ok(value) => value,
        Err(error) => {
            return Err(error);
        },
    };
    Ok(
        WebSocketListenerConfig {
            bind_addr,
            websocket_path,
            max_connections,
            handshake_timeout_milliseconds,
            shutdown_grace_period_milliseconds,
            ..config
        },
    )
}

/// What is wrong with the Grant lifetime.
pub open spec fn lifetime_problem(env: Seq<EnvVariable>) -> Option<Seq<char>> {
    checked_problem(
        env,
        "ORBITRELAY_ASSET_GRANT_TTL_SECONDS"@,
        signed_value(variable_text(env, "ORBITRELAY_ASSET_GRANT_TTL_SECONDS"@)) is Some,
        "ORBITRELAY_ASSET_GRANT_TTL_SECONDS must be an integer"@,
    )
}

/// The Grant lifetime that the variable holds, or `default` where it is not set.
pub open spec fn lifetime_or(env: Seq<EnvVariable>, default: i64) -> i64 {
    if is_set(env, "ORBITRELAY_ASSET_GRANT_TTL_SECONDS"@) {
        signed_value(variable_text(env, "ORBITRELAY_ASSET_GRANT_TTL_SECONDS"@))->0 as i64
    } else {
        default
    }
}

/// Reads the Grant lifetime, or keeps `default`.
fn read_lifetime(env: &[EnvVariable], default: i64) -> (r: Result<i64, ServerError>)
    ensures
        match r {
            Ok(seconds) => lifetime_problem(env@) is None && seconds == lifetime_or(env@, default),
            Err(error) => lifetime_problem(env@) is Some && error@ == ServerErrorView::Config(
                lifetime_problem(env@)->0,
            ),
        },
{
    match read_utf8_env(env, "ORBITRELAY_ASSET_GRANT_TTL_SECONDS") {
        Ok(Some(text)) => {
            let value = chars_of(text.as_str());
            match parse_signed(value.as_slice()) {
                Some(seconds) => Ok(seconds),
                None => Err(
                    ServerError::config("ORBITRELAY_ASSET_GRANT_TTL_SECONDS must be an integer"),
                ),
            }
        },
        Ok(None) => Ok(default),
        Err(error) => Err(error),
    }
}

/// The first thing wrong with the variables of Asset Delivery, up to the origin list.
pub open spec fn delivery_problem(env: Seq<EnvVariable>, readings: EnvReadings) -> Option<
    Seq<char>,
> {
    let problem = bool_problem(env, "ORBITRELAY_ASSET_DELIVERY_ENABLED"@);
    let problem = either(
        problem,
        checked_problem(
            env,
            "ORBITRELAY_ASSET_LISTEN_ADDR"@,
            readings.asset_listen_addr is Some,
            "ORBITRELAY_ASSET_LISTEN_ADDR is not a valid socket address"@,
        ),
    );
    let problem = either(problem, text_problem(env, "ORBITRELAY_ASSET_PUBLIC_BASE_URL"@));
    let problem = either(
        problem,
        number_problem(env, "ORBITRELAY_ASSET_MAX_CONNECTIONS"@, usize::MAX as int),
    );
    let problem = either(
        problem,
        number_problem(env, "ORBITRELAY_ASSET_MAX_ACTIVE_DOWNLOADS"@, usize::MAX as int),
    );
    let problem = either(
        problem,
        number_problem(env, "ORBITRELAY_ASSET_CHUNK_SIZE"@, usize::MAX as int),
    );
    let problem = either(
        problem,
        number_problem(env, "ORBITRELAY_ASSET_IDLE_TIMEOUT_MILLISECONDS"@, u64::MAX as int),
    );
    let problem = either(problem, lifetime_problem(env));
    let problem = either(
        problem,
        number_problem(env, "ORBITRELAY_ASSET_MAX_GRANTS"@, usize::MAX as int),
    );
    problem
}

/// The Asset Delivery configuration with its overrides, up to the origin list.
pub open spec fn delivery_loaded(
    env: Seq<EnvVariable>,
    readings: EnvReadings,
    config: AssetDeliveryConfig,
) -> AssetDeliveryConfig {
    AssetDeliveryConfig {
        enabled: bool_or(env, "ORBITRELAY_ASSET_DELIVERY_ENABLED"@, config.enabled),
        listen_addr: reading_or(
            env,
            "ORBITRELAY_ASSET_LISTEN_ADDR"@,
            readings.asset_listen_addr,
            config.listen_addr,
        ),
        public_base_url: text_or(
            env,
            "ORBITRELAY_ASSET_PUBLIC_BASE_URL"@,
            config.public_base_url,
        ),
        max_connections: number_or(
            env,
            "ORBITRELAY_ASSET_MAX_CONNECTIONS"@,
            usize::MAX as int,
            config.max_connections as int,
        ) as usize,
        max_active_downloads: number_or(
            env,
            "ORBITRELAY_ASSET_MAX_ACTIVE_DOWNLOADS"@,
            usize::MAX as int,
            config.max_active_downloads as int,
        ) as usize,
        chunk_size: number_or(
            env,
            "ORBITRELAY_ASSET_CHUNK_SIZE"@,
            usize::MAX as int,
            config.chunk_size as int,
        ) as usize,
        idle_timeout_milliseconds: number_or(
            env,
            "ORBITRELAY_ASSET_IDLE_TIMEOUT_MILLISECONDS"@,
            u64::MAX as int,
            config.idle_timeout_milliseconds as int,
        ) as u64,
        grant_ttl_seconds: lifetime_or(env, config.grant_ttl_seconds),
        max_grants: number_or(
            env,
            "ORBITRELAY_ASSET_MAX_GRANTS"@,
            usize::MAX as int,
            config.max_grants as int,
        ) as usize,
        ..config
    }
}

/// Reads the overrides of Asset Delivery, up to the origin list.
fn load_delivery(
    env: &[EnvVariable],
    readings: &EnvReadings,
    config: AssetDeliveryConfig,
) -> (r: Result<AssetDeliveryConfig, ServerError>)
    ensures
        match r {
            Ok(loaded) => delivery_problem(env@, *readings) is None && loaded == delivery_loaded(
                env@,
                *readings,
                config,
            ),
            Err(error) => delivery_problem(env@, *readings) is Some && error@ == ServerErrorView::Config(
                delivery_problem(env@, *readings)->0,
            ),
        },
{
    let enabled = match read_bool(env, "ORBITRELAY_ASSET_DELIVERY_ENABLED", config.enabled) {
        Ok(value) => value,
        Err(error) => {
            return Err(error);
        },
    };
    let listen_addr = match read_reading(
        env,
        "ORBITRELAY_ASSET_LISTEN_ADDR",
        readings.asset_listen_addr,
        config.listen_addr,
        "ORBITRELAY_ASSET_LISTEN_ADDR is not a valid socket address",
    ) {
        Ok(value) => value,
        Err(error) => {
            return Err(error);
        },
    };
    let public_base_url = match read_text(
        env,
        "ORBITRELAY_ASSET_PUBLIC_BASE_URL",
        config.public_base_url,
    ) {
        Ok(value) => value,
        Err(error) => {
            return Err(error);
        },
    };
    let max_connections = match read_size(
        env,
        "ORBITRELAY_ASSET_MAX_CONNECTIONS",
        config.max_connections,
    ) {
        Ok(value) => value,
        Err(error) => {
            return Err(error);
        },
    };
    let max_active_downloads = match read_size(
        env,
        "ORBITRELAY_ASSET_MAX_ACTIVE_DOWNLOADS",
        config.max_active_downloads,
    ) {
        Ok(value) => value,
        Err(error) => {
            return Err(error);
        },
    };
    let chunk_size = match read_size(env, "ORBITRELAY_ASSET_CHUNK_SIZE", config.chunk_size) {
        Ok(value) => value,
        Err(error) => {
            return Err(error);
        },
    };
    let idle_timeout_milliseconds = match read_number(
        env,
        "ORBITRELAY_ASSET_IDLE_TIMEOUT_MILLISECONDS",
        u64::MAX,
        config.idle_timeout_milliseconds,
    ) {
        Ok(value) => value,
        Err(error) => {
            return Err(error);
        },
    };
    let grant_ttl_seconds = match read_lifetime(env, config.grant_ttl_seconds) {
        Ok(value) => value,
        Err(error) => {
            return Err(error);
        },
    };
    let max_grants = match read_size(env, "ORBITRELAY_ASSET_MAX_GRANTS", config.max_grants) {
        Ok(value) => value,
        Err(error) => {
            return Err(error);
        },
    };
    Ok(
        AssetDeliveryConfig {
            enabled,
            listen_addr,
            public_base_url,
            max_connections,
            max_active_downloads,
            chunk_size,
            idle_timeout_milliseconds,
            grant_ttl_seconds,
            max_grants,
            ..config
        },
    )
}

/// What is wrong with the Development PDF path. It is looked at in development mode only.
pub open spec fn pdf_problem(env: Seq<EnvVariable>, development_mode: bool) -> Option<Seq<char>> {
    if development_mode {
        text_problem(env, "ORBITRELAY_DEVELOPMENT_PDF_PATH"@)
    } else {
        None
    }
}

/// The Development PDF path: only development mode takes it from the environment.
pub open spec fn pdf_path_or(
    env: Seq<EnvVariable>,
    development_mode: bool,
    default: Option<String>,
) -> Option<String> {
    if development_mode {
        text_or(env, "ORBITRELAY_DEVELOPMENT_PDF_PATH"@, default)
    } else {
        default
    }
}

/// Whether development mode is on after the overrides.
pub open spec fn development_after(env: Seq<EnvVariable>, config: ServerConfig) -> bool {
    bool_or(env, "ORBITRELAY_DEVELOPMENT_MODE"@, config.development_mode)
}

/// The first thing wrong with the variables, in the order in which they are read.
pub open spec fn environment_problem(
    env: Seq<EnvVariable>,
    readings: EnvReadings,
    config: ServerConfig,
) -> Option<Seq<char>> {
    let problem = process_problem(env, readings);
    let problem = either(problem, pdf_problem(env, development_after(env, config)));
    let problem = either(problem, canvas_problem(env, readings));
    let problem = either(problem, listener_problem(env, readings));
    let problem = either(problem, delivery_problem(env, readings));
    let problem = either(problem, text_problem(env, "ORBITRELAY_ASSET_ALLOWED_ORIGINS"@));
    problem
}

/// Whether `origins` is the allowlist after the overrides.
pub open spec fn are_origins(
    env: Seq<EnvVariable>,
    default: Vec<String>,
    origins: Vec<String>,
) -> bool {
    if is_set(env, "ORBITRELAY_ASSET_ALLOWED_ORIGINS"@) {
        string_texts(origins@) == origins_in(
            split_text(variable_text(env, "ORBITRELAY_ASSET_ALLOWED_ORIGINS"@), seq![',']),
        )
    } else {
        origins == default
    }
}

/// Whether `loaded` is `config` with every override of the environment, and nothing else changed.
pub open spec fn is_loaded(
    env: Seq<EnvVariable>,
    readings: EnvReadings,
    config: ServerConfig,
    loaded: ServerConfig,
) -> bool {
    let delivery = delivery_loaded(env, readings, config.asset_delivery);
    let origins = loaded.asset_delivery.allowed_origins;
    &&& are_origins(env, config.asset_delivery.allowed_origins, origins)
    &&& loaded == (ServerConfig {
        development_pdf_path: pdf_path_or(
            env,
            development_after(env, config),
            config.development_pdf_path,
        ),
        development_canvas: canvas_loaded(env, readings, config.development_canvas),
        websocket_listener: listener_loaded(env, readings, config.websocket_listener),
        asset_delivery: AssetDeliveryConfig { allowed_origins: origins, ..delivery },
        ..process_loaded(env, readings, config)
    })
}

/// Reads every override of the environment.
fn load_overrides(env: &[EnvVariable], readings: &EnvReadings, config: ServerConfig) -> (r: Result<
    ServerConfig,
    ServerError,
>)
    ensures
        match r {
            Ok(loaded) => environment_problem(env@, *readings, config) is None && is_loaded(
                env@,
                *readings,
                config,
                loaded,
            ),
            Err(error) => environment_problem(env@, *readings, config) is Some && error@
                == ServerErrorView::Config(environment_problem(env@, *readings, config)->0),
        },
{
    let mut loaded = match load_process(env, readings, config) {
        Ok(loaded) => loaded,
        Err(error) => {
            return Err(error);
        },
    };
    if loaded.development_mode {
        let path = match read_text(env, "ORBITRELAY_DEVELOPMENT_PDF_PATH", loaded.development_pdf_path) {
            Ok(path) => path,
            Err(error) => {
                return Err(error);
            },
        };
        loaded.development_pdf_path = path;
    }
    loaded.development_canvas = match load_canvas(env, readings, loaded.development_canvas) {
        Ok(canvas) => canvas,
        Err(error) => {
            return Err(error);
        },
    };
    loaded.websocket_listener = match load_listener(env, readings, loaded.websocket_listener) {
        Ok(listener) => listener,
        Err(error) => {
            return Err(error);
        },
    };
    loaded.asset_delivery = match load_delivery(env, readings, loaded.asset_delivery) {
        Ok(delivery) => delivery,
        Err(error) => {
            return Err(error);
        },
    };
    match read_utf8_env(env, "ORBITRELAY_ASSET_ALLOWED_ORIGINS") {
        Ok(Some(value)) => {
            loaded.asset_delivery.allowed_origins = parse_origins(value.as_str());
        },
        Ok(None) => {},
        Err(error) => {
            return Err(error);
        },
    }
    Ok(loaded)
}

/// Whether `r` is the outcome of loading the environment over `config`: the first variable that
/// cannot be read is the error, then what is wrong with the configuration that they make, and
/// otherwise that configuration is loaded.
pub open spec fn is_load_outcome(
    env: Seq<EnvVariable>,
    readings: EnvReadings,
    config: ServerConfig,
    r: Result<ServerConfig, ServerError>,
) -> bool {
    match (r, environment_problem(env, readings, config)) {
        (Ok(_), Some(_)) => false,
        (Ok(loaded), None) => is_loaded(env, readings, config, loaded) && loaded.verdict() is Ok,
        (Err(error), Some(message)) => error@ == ServerErrorView::Config(message),
        (Err(error), None) => exists|loaded: ServerConfig|
            {
                &&& #[trigger] is_loaded(env, readings, config, loaded)
                &&& loaded.verdict() == Err::<(), ServerErrorView>(error@)
            },
    }
}

impl ServerConfig {
    /// Loads supported environment overrides over the default configuration.
    ///
    /// Unknown variables are ignored. The first variable that cannot be read is the error; where
    /// all can be read, the configuration that they make has to be usable.
    pub fn load(
        env: &[EnvVariable],
        readings: &EnvReadings,
        websocket_adapter: WebSocketAdapterConfig,
        limits: PdfInspectionLimits,
    ) -> (r: Result<ServerConfig, ServerError>)
        ensures
            exists|default: ServerConfig| #[trigger]
                default.is_default_with(websocket_adapter, limits) && is_load_outcome(
                    env@,
                    *readings,
                    default,
                    r,
                ),
    {
        let default = ServerConfig::default_with(websocket_adapter, limits);
        let ghost given = default;
        match load_overrides(env, readings, default) {
            Ok(loaded) => match loaded.validate() {
                Ok(()) => {
                    assert(given.is_default_with(websocket_adapter, limits));
                    Ok(loaded)
                },
                Err(error) => {
                    assert(given.is_default_with(websocket_adapter, limits));
                    assert(is_loaded(env@, *readings, given, loaded));
                    Err(error)
                },
            },
            Err(error) => {
                assert(given.is_default_with(websocket_adapter, limits));
                Err(error)
            },
        }
    }
}

/// Whether a variable of this name is read.
pub open spec fn is_known(name: Seq<char>) -> bool {
    ||| name == "ORBITRELAY_NODE_ID"@
    ||| name == "ORBITRELAY_SUBSCRIPTION_QUEUE_CAPACITY"@
    ||| name == "ORBITRELAY_HISTORY_STORE_SCAN_LIMIT"@
    ||| name == "ORBITRELAY_EVENT_STORE_PATH"@
    ||| name == "ORBITRELAY_ASSET_STORE_DIR"@
    ||| name == "ORBITRELAY_CATALOG_STORE_PATH"@
    ||| name == "ORBITRELAY_SQLITE_COMMAND_QUEUE_CAPACITY"@
    ||| name == "ORBITRELAY_DEVELOPMENT_MODE"@
    ||| name == "ORBITRELAY_DEVELOPMENT_PDF_PATH"@
    ||| name == "ORBITRELAY_DEVELOPMENT_CANVAS_SESSION_ID"@
    ||| name == "ORBITRELAY_DEVELOPMENT_CANVAS_ID"@
    ||| name == "ORBITRELAY_DEVELOPMENT_CANVAS_LAYER_ID"@
    ||| name == "ORBITRELAY_DEVELOPMENT_CANVAS_WIDTH"@
    ||| name == "ORBITRELAY_DEVELOPMENT_CANVAS_HEIGHT"@
    ||| name == "ORBITRELAY_BIND_ADDR"@
    ||| name == "ORBITRELAY_WEBSOCKET_PATH"@
    ||| name == "ORBITRELAY_MAX_CONNECTIONS"@
    ||| name == "ORBITRELAY_HANDSHAKE_TIMEOUT_MILLISECONDS"@
    ||| name == "ORBITRELAY_SHUTDOWN_GRACE_PERIOD_MILLISECONDS"@
    ||| name == "ORBITRELAY_ASSET_DELIVERY_ENABLED"@
    ||| name == "ORBITRELAY_ASSET_LISTEN_ADDR"@
    ||| name == "ORBITRELAY_ASSET_PUBLIC_BASE_URL"@
    ||| name == "ORBITRELAY_ASSET_MAX_CONNECTIONS"@
    ||| name == "ORBITRELAY_ASSET_MAX_ACTIVE_DOWNLOADS"@
    ||| name == "ORBITRELAY_ASSET_CHUNK_SIZE"@
    ||| name == "ORBITRELAY_ASSET_IDLE_TIMEOUT_MILLISECONDS"@
    ||| name == "ORBITRELAY_ASSET_GRANT_TTL_SECONDS"@
    ||| name == "ORBITRELAY_ASSET_MAX_GRANTS"@
    ||| name == "ORBITRELAY_ASSET_ALLOWED_ORIGINS"@
}

/// Adding a variable of another name does not change what is read.
proof fn lemma_other_variable(env: Seq<EnvVariable>, added: EnvVariable, index: int, name: Seq<char>)
    requires
        0 <= index <= env.len(),
        added.name@ != name,
    ensures
        variable(env.insert(index, added), name) == variable(env, name),
    decreases env.len(),
{
    let after = env.insert(index, added);
    if index == 0 {
        assert(after.skip(1) =~= env);
    } else {
        assert(after[0] == env[0]);
        assert(after.skip(1) =~= env.skip(1).insert(index - 1, added));
        lemma_other_variable(env.skip(1), added, index - 1, name);
    }
}

/// Whether both environments hold the same variables that are read.
pub open spec fn agree(env: Seq<EnvVariable>, other: Seq<EnvVariable>) -> bool {
    forall|name: Seq<char>|
        is_known(name) ==> #[trigger] variable(other, name) == variable(env, name)
}

proof fn lemma_process_agrees(
    env: Seq<EnvVariable>,
    other: Seq<EnvVariable>,
    readings: EnvReadings,
    config: ServerConfig,
)
    requires
        agree(env, other),
    ensures
        process_problem(other, readings) == process_problem(env, readings),
        process_loaded(other, readings, config) == process_loaded(env, readings, config),
{
}

proof fn lemma_canvas_agrees(
    env: Seq<EnvVariable>,
    other: Seq<EnvVariable>,
    readings: EnvReadings,
    config: DevelopmentCanvasConfig,
)
    requires
        agree(env, other),
    ensures
        canvas_problem(other, readings) == canvas_problem(env, readings),
        canvas_loaded(other, readings, config) == canvas_loaded(env, readings, config),
{
}

proof fn lemma_listener_agrees(
    env: Seq<EnvVariable>,
    other: Seq<EnvVariable>,
    readings: EnvReadings,
    config: WebSocketListenerConfig,
)
    requires
        agree(env, other),
    ensures
        listener_problem(other, readings) == listener_problem(env, readings),
        listener_loaded(other, readings, config) == listener_loaded(env, readings, config),
{
}

proof fn lemma_delivery_agrees(
    env: Seq<EnvVariable>,
    other: Seq<EnvVariable>,
    readings: EnvReadings,
    config: AssetDeliveryConfig,
)
    requires
        agree(env, other),
    ensures
        delivery_problem(other, readings) == delivery_problem(env, readings),
        delivery_loaded(other, readings, config) == delivery_loaded(env, readings, config),
{
}

/// Unknown variables are ignored: wherever one stands among the others, it changes neither what is
/// wrong with the environment nor what is loaded from it.
pub proof fn law_unknown_variables_are_ignored(
    env: Seq<EnvVariable>,
    readings: EnvReadings,
    config: ServerConfig,
    loaded: ServerConfig,
    added: EnvVariable,
    index: int,
)
    requires
        0 <= index <= env.len(),
        !is_known(added.name@),
    ensures
        environment_problem(env.insert(index, added), readings, config) == environment_problem(
            env,
            readings,
            config,
        ),
        is_loaded(env.insert(index, added), readings, config, loaded) == is_loaded(
            env,
            readings,
            config,
            loaded,
        ),
{
    let after = env.insert(index, added);
    assert(agree(env, after)) by {
        assert forall|name: Seq<char>| is_known(name) implies #[trigger] variable(after, name)
            == variable(env, name) by {
            lemma_other_variable(env, added, index, name);
        }
    }
    lemma_process_agrees(env, after, readings, config);
    lemma_canvas_agrees(env, after, readings, config.development_canvas);
    lemma_listener_agrees(env, after, readings, config.websocket_listener);
    lemma_delivery_agrees(env, after, readings, config.asset_delivery);
    assert(variable(after, "ORBITRELAY_DEVELOPMENT_MODE"@) == variable(
        env,
        "ORBITRELAY_DEVELOPMENT_MODE"@,
    ));
    assert(variable(after, "ORBITRELAY_DEVELOPMENT_PDF_PATH"@) == variable(
        env,
        "ORBITRELAY_DEVELOPMENT_PDF_PATH"@,
    ));
    assert(variable(after, "ORBITRELAY_ASSET_ALLOWED_ORIGINS"@) == variable(
        env,
        "ORBITRELAY_ASSET_ALLOWED_ORIGINS"@,
    ));
}

/// Without any variable, the configuration is loaded as it is.
pub proof fn law_empty_environment_changes_nothing(readings: EnvReadings, config: ServerConfig)
    ensures
        environment_problem(Seq::empty(), readings, config) is None,
        is_loaded(Seq::empty(), readings, config, config),
{
}

/// Only development mode takes a PDF path from the environment.
pub proof fn law_production_ignores_the_development_pdf(
    env: Seq<EnvVariable>,
    readings: EnvReadings,
    config: ServerConfig,
    loaded: ServerConfig,
)
    requires
        is_loaded(env, readings, config, loaded),
        !loaded.development_mode,
    ensures
        loaded.development_pdf_path == config.development_pdf_path,
{
}

/// The first variable of a name counts; one that is not there is not set.
pub proof fn law_first_variable_counts(env: Seq<EnvVariable>, first: EnvVariable, name: Seq<char>)
    ensures
        variable(Seq::empty(), name) is None,
        variable(seq![first] + env, name) == if first.name@ == name {
            Some(first.value)
        } else {
            variable(env, name)
        },
{
    assert((seq![first] + env).skip(1) =~= env);
}

/// A truth value is written `true` or `1` where it is true, `false` or `0` where it is false, and
/// in no other way.
pub proof fn law_truth_values(text: Seq<char>)
    ensures
        bool_value(text) == Some(true) <==> text == "true"@ || text == "1"@,
        bool_value(text) == Some(false) <==> text == "false"@ || text == "0"@,
        bool_value(text) is None <==> text != "true"@ && text != "1"@ && text != "false"@ && text
            != "0"@,
{
    reveal_strlit("true");
    reveal_strlit("1");
    reveal_strlit("false");
    reveal_strlit("0");
    assert("0"@[0] != "1"@[0]);
    assert("true"@.len() == 4 && "false"@.len() == 5 && "1"@.len() == 1 && "0"@.len() == 1);
}

/// Which variable sets what: each setting of a configuration that was loaded is what its own
/// variable says, and stays as it was where that variable is not set. The variable for development
/// mode switches it on exactly where it is written `true` or `1`, and the PDF path is taken in
/// development mode only.
pub proof fn law_each_variable_sets_its_own_setting(
    env: Seq<EnvVariable>,
    readings: EnvReadings,
    config: ServerConfig,
    loaded: ServerConfig,
)
    requires
        environment_problem(env, readings, config) is None,
        is_loaded(env, readings, config, loaded),
    ensures
        match variable(env, "ORBITRELAY_DEVELOPMENT_MODE"@) {
            None => loaded.development_mode == config.development_mode,
            Some(None) => false,
            Some(Some(text)) => if loaded.development_mode {
                text@ == "true"@ || text@ == "1"@
            } else {
                text@ == "false"@ || text@ == "0"@
            },
        },
        match variable(env, "ORBITRELAY_ASSET_DELIVERY_ENABLED"@) {
            None => loaded.asset_delivery.enabled == config.asset_delivery.enabled,
            Some(None) => false,
            Some(Some(text)) => if loaded.asset_delivery.enabled {
                text@ == "true"@ || text@ == "1"@
            } else {
                text@ == "false"@ || text@ == "0"@
            },
        },
        match variable(env, "ORBITRELAY_SUBSCRIPTION_QUEUE_CAPACITY"@) {
            None => loaded.subscription_queue_capacity == config.subscription_queue_capacity,
            Some(None) => false,
            Some(Some(text)) => unsigned_value(text@, usize::MAX as int) == Some(
                loaded.subscription_queue_capacity as int,
            ),
        },
        match variable(env, "ORBITRELAY_HISTORY_STORE_SCAN_LIMIT"@) {
            None => loaded.history_store_scan_limit == config.history_store_scan_limit,
            Some(None) => false,
            Some(Some(text)) => unsigned_value(text@, usize::MAX as int) == Some(
                loaded.history_store_scan_limit as int,
            ),
        },
        match variable(env, "ORBITRELAY_SQLITE_COMMAND_QUEUE_CAPACITY"@) {
            None => loaded.sqlite_command_queue_capacity == config.sqlite_command_queue_capacity,
            Some(None) => false,
            Some(Some(text)) => unsigned_value(text@, usize::MAX as int) == Some(
                loaded.sqlite_command_queue_capacity as int,
            ),
        },
        match variable(env, "ORBITRELAY_MAX_CONNECTIONS"@) {
            None => loaded.websocket_listener.max_connections
                == config.websocket_listener.max_connections,
            Some(None) => false,
            Some(Some(text)) => unsigned_value(text@, usize::MAX as int) == Some(
                loaded.websocket_listener.max_connections as int,
            ),
        },
        match variable(env, "ORBITRELAY_HANDSHAKE_TIMEOUT_MILLISECONDS"@) {
            None => loaded.websocket_listener.handshake_timeout_milliseconds
                == config.websocket_listener.handshake_timeout_milliseconds,
            Some(None) => false,
            Some(Some(text)) => unsigned_value(text@, u64::MAX as int) == Some(
                loaded.websocket_listener.handshake_timeout_milliseconds as int,
            ),
        },
        match variable(env, "ORBITRELAY_SHUTDOWN_GRACE_PERIOD_MILLISECONDS"@) {
            None => loaded.websocket_listener.shutdown_grace_period_milliseconds
                == config.websocket_listener.shutdown_grace_period_milliseconds,
            Some(None) => false,
            Some(Some(text)) => unsigned_value(text@, u64::MAX as int) == Some(
                loaded.websocket_listener.shutdown_grace_period_milliseconds as int,
            ),
        },
        match variable(env, "ORBITRELAY_ASSET_MAX_CONNECTIONS"@) {
            None => loaded.asset_delivery.max_connections == config.asset_delivery.max_connections,
            Some(None) => false,
            Some(Some(text)) => unsigned_value(text@, usize::MAX as int) == Some(
                loaded.asset_delivery.max_connections as int,
            ),
        },
        match variable(env, "ORBITRELAY_ASSET_MAX_ACTIVE_DOWNLOADS"@) {
            None => loaded.asset_delivery.max_active_downloads
                == config.asset_delivery.max_active_downloads,
            Some(None) => false,
            Some(Some(text)) => unsigned_value(text@, usize::MAX as int) == Some(
                loaded.asset_delivery.max_active_downloads as int,
            ),
        },
        match variable(env, "ORBITRELAY_ASSET_CHUNK_SIZE"@) {
            None => loaded.asset_delivery.chunk_size == config.asset_delivery.chunk_size,
            Some(None) => false,
            Some(Some(text)) => unsigned_value(text@, usize::MAX as int) == Some(
                loaded.asset_delivery.chunk_size as int,
            ),
        },
        match variable(env, "ORBITRELAY_ASSET_IDLE_TIMEOUT_MILLISECONDS"@) {
            None => loaded.asset_delivery.idle_timeout_milliseconds
                == config.asset_delivery.idle_timeout_milliseconds,
            Some(None) => false,
            Some(Some(text)) => unsigned_value(text@, u64::MAX as int) == Some(
                loaded.asset_delivery.idle_timeout_milliseconds as int,
            ),
        },
        match variable(env, "ORBITRELAY_ASSET_MAX_GRANTS"@) {
            None => loaded.asset_delivery.max_grants == config.asset_delivery.max_grants,
            Some(None) => false,
            Some(Some(text)) => unsigned_value(text@, usize::MAX as int) == Some(
                loaded.asset_delivery.max_grants as int,
            ),
        },
        match variable(env, "ORBITRELAY_ASSET_GRANT_TTL_SECONDS"@) {
            None => loaded.asset_delivery.grant_ttl_seconds
                == config.asset_delivery.grant_ttl_seconds,
            Some(None) => false,
            Some(Some(text)) => signed_value(text@) == Some(
                loaded.asset_delivery.grant_ttl_seconds as int,
            ),
        },
        match variable(env, "ORBITRELAY_EVENT_STORE_PATH"@) {
            None => loaded.event_store_path == config.event_store_path,
            Some(None) => false,
            Some(Some(text)) => loaded.event_store_path == Some(text),
        },
        match variable(env, "ORBITRELAY_ASSET_STORE_DIR"@) {
            None => loaded.asset_store_root == config.asset_store_root,
            Some(None) => false,
            Some(Some(text)) => loaded.asset_store_root == Some(text),
        },
        match variable(env, "ORBITRELAY_CATALOG_STORE_PATH"@) {
            None => loaded.catalog_store_path == config.catalog_store_path,
            Some(None) => false,
            Some(Some(text)) => loaded.catalog_store_path == Some(text),
        },
        match variable(env, "ORBITRELAY_ASSET_PUBLIC_BASE_URL"@) {
            None => loaded.asset_delivery.public_base_url == config.asset_delivery.public_base_url,
            Some(None) => false,
            Some(Some(text)) => loaded.asset_delivery.public_base_url == Some(text),
        },
        match variable(env, "ORBITRELAY_WEBSOCKET_PATH"@) {
            None => loaded.websocket_listener.websocket_path
                == config.websocket_listener.websocket_path,
            Some(None) => false,
            Some(Some(text)) => loaded.websocket_listener.websocket_path == text,
        },
        match variable(env, "ORBITRELAY_DEVELOPMENT_PDF_PATH"@) {
            None => loaded.development_pdf_path == config.development_pdf_path,
            Some(None) => !loaded.development_mode,
            Some(Some(text)) => loaded.development_mode ==> loaded.development_pdf_path == Some(
                text,
            ),
        },
        !loaded.development_mode ==> loaded.development_pdf_path == config.development_pdf_path,
        match variable(env, "ORBITRELAY_NODE_ID"@) {
            None => loaded.node_id == config.node_id,
            Some(value) => value is Some && readings.node_id is Some && loaded.node_id
                == readings.node_id,
        },
        match variable(env, "ORBITRELAY_DEVELOPMENT_CANVAS_SESSION_ID"@) {
            None => loaded.development_canvas.session_id == config.development_canvas.session_id,
            Some(value) => value is Some && readings.session_id is Some
                && loaded.development_canvas.session_id
                == readings.session_id,
        },
        match variable(env, "ORBITRELAY_DEVELOPMENT_CANVAS_ID"@) {
            None => loaded.development_canvas.canvas_id == config.development_canvas.canvas_id,
            Some(value) => value is Some && readings.canvas_id is Some
                && loaded.development_canvas.canvas_id
                == readings.canvas_id,
        },
        match variable(env, "ORBITRELAY_DEVELOPMENT_CANVAS_LAYER_ID"@) {
            None => loaded.development_canvas.layer_id == config.development_canvas.layer_id,
            Some(value) => value is Some && readings.layer_id is Some
                && loaded.development_canvas.layer_id
                == readings.layer_id,
        },
        match variable(env, "ORBITRELAY_DEVELOPMENT_CANVAS_WIDTH"@) {
            None => loaded.development_canvas.width == config.development_canvas.width,
            Some(value) => value is Some && readings.width == Some(loaded.development_canvas.width),
        },
        match variable(env, "ORBITRELAY_DEVELOPMENT_CANVAS_HEIGHT"@) {
            None => loaded.development_canvas.height == config.development_canvas.height,
            Some(value) => value is Some && readings.height
                == Some(loaded.development_canvas.height),
        },
        match variable(env, "ORBITRELAY_BIND_ADDR"@) {
            None => loaded.websocket_listener.bind_addr == config.websocket_listener.bind_addr,
            Some(value) => value is Some && readings.bind_addr
                == Some(loaded.websocket_listener.bind_addr),
        },
        match variable(env, "ORBITRELAY_ASSET_LISTEN_ADDR"@) {
            None => loaded.asset_delivery.listen_addr == config.asset_delivery.listen_addr,
            Some(value) => value is Some && readings.asset_listen_addr
                == Some(loaded.asset_delivery.listen_addr),
        },
        match variable(env, "ORBITRELAY_ASSET_ALLOWED_ORIGINS"@) {
            None => loaded.asset_delivery.allowed_origins == config.asset_delivery.allowed_origins,
            Some(None) => false,
            Some(Some(text)) => string_texts(loaded.asset_delivery.allowed_origins@) == origins_in(
                split_text(text@, seq![',']),
            ),
        },
        loaded.node_metadata == config.node_metadata,
        loaded.websocket_adapter == config.websocket_adapter,
        loaded.development_pdf_inspection_limits == config.development_pdf_inspection_limits,
{
    if let Some(Some(text)) = variable(env, "ORBITRELAY_DEVELOPMENT_MODE"@) {
        law_truth_values(text@);
    }
    if let Some(Some(text)) = variable(env, "ORBITRELAY_ASSET_DELIVERY_ENABLED"@) {
        law_truth_values(text@);
    }

    if let Some(Some(text)) = variable(env, "ORBITRELAY_SUBSCRIPTION_QUEUE_CAPACITY"@) {
        lemma_unsigned_value(text@, usize::MAX as int);
    }
    if let Some(Some(text)) = variable(env, "ORBITRELAY_HISTORY_STORE_SCAN_LIMIT"@) {
        lemma_unsigned_value(text@, usize::MAX as int);
    }
    if let Some(Some(text)) = variable(env, "ORBITRELAY_SQLITE_COMMAND_QUEUE_CAPACITY"@) {
        lemma_unsigned_value(text@, usize::MAX as int);
    }
    if let Some(Some(text)) = variable(env, "ORBITRELAY_MAX_CONNECTIONS"@) {
        lemma_unsigned_value(text@, usize::MAX as int);
    }
    if let Some(Some(text)) = variable(env, "ORBITRELAY_HANDSHAKE_TIMEOUT_MILLISECONDS"@) {
        lemma_unsigned_value(text@, u64::MAX as int);
    }
    if let Some(Some(text)) = variable(env, "ORBITRELAY_SHUTDOWN_GRACE_PERIOD_MILLISECONDS"@) {
        lemma_unsigned_value(text@, u64::MAX as int);
    }
    if let Some(Some(text)) = variable(env, "ORBITRELAY_ASSET_MAX_CONNECTIONS"@) {
        lemma_unsigned_value(text@, usize::MAX as int);
    }
    if let Some(Some(text)) = variable(env, "ORBITRELAY_ASSET_MAX_ACTIVE_DOWNLOADS"@) {
        lemma_unsigned_value(text@, usize::MAX as int);
    }
    if let Some(Some(text)) = variable(env, "ORBITRELAY_ASSET_CHUNK_SIZE"@) {
        lemma_unsigned_value(text@, usize::MAX as int);
    }
    if let Some(Some(text)) = variable(env, "ORBITRELAY_ASSET_IDLE_TIMEOUT_MILLISECONDS"@) {
        lemma_unsigned_value(text@, u64::MAX as int);
    }
    if let Some(Some(text)) = variable(env, "ORBITRELAY_ASSET_MAX_GRANTS"@) {
        lemma_unsigned_value(text@, usize::MAX as int);
    }
    if let Some(Some(text)) = variable(env, "ORBITRELAY_ASSET_GRANT_TTL_SECONDS"@) {
        lemma_signed_value(text@);
    }
}

proof fn lemma_signed_value(text: Seq<char>)
    ensures
        signed_value(text) is Some ==> i64::MIN <= signed_value(text)->0 <= i64::MAX,
{
    crate::text::lemma_unsigned_value(text, 0x7fff_ffff_ffff_ffff);
    if text.len() > 0 && text[0] == '-' {
        let rest = text.skip(1);
        if rest.len() > 0 && rest[0] != '+' {
            crate::text::lemma_unsigned_value(rest, 0x8000_0000_0000_0000);
        }
    }
}

/// An environment is refused exactly where a variable that is read is not valid UTF-8, or is not
/// what its setting has to be: a truth value, a number, or something that was read. The PDF path is
/// looked at in development mode only.
pub proof fn law_unreadable_variables_are_refused(
    env: Seq<EnvVariable>,
    readings: EnvReadings,
    config: ServerConfig,
)
    ensures
        ({
            let development = match variable(env, "ORBITRELAY_DEVELOPMENT_MODE"@) {
                Some(Some(text)) => text@ == "true"@ || text@ == "1"@,
                _ => config.development_mode,
            };
            environment_problem(env, readings, config) is None <==> {
                &&& variable(env, "ORBITRELAY_DEVELOPMENT_MODE"@) matches Some(value)
                    ==> value is Some && (
                value->0@ == "true"@ || value->0@ == "1"@ || value->0@ == "false"@ || value->0@
                    == "0"@)
                &&& variable(env, "ORBITRELAY_ASSET_DELIVERY_ENABLED"@) matches Some(value)
                    ==> value is Some && (
                value->0@ == "true"@ || value->0@ == "1"@ || value->0@ == "false"@ || value->0@
                    == "0"@)
                &&& variable(env, "ORBITRELAY_SUBSCRIPTION_QUEUE_CAPACITY"@)
                    matches Some(value) ==> value is Some
                    && unsigned_value(value->0@, usize::MAX as int) is Some
                &&& variable(env, "ORBITRELAY_HISTORY_STORE_SCAN_LIMIT"@) matches Some(value)
                    ==> value is Some
                    && unsigned_value(value->0@, usize::MAX as int) is Some
                &&& variable(env, "ORBITRELAY_SQLITE_COMMAND_QUEUE_CAPACITY"@)
                    matches Some(value) ==> value is Some
                    && unsigned_value(value->0@, usize::MAX as int) is Some
                &&& variable(env, "ORBITRELAY_MAX_CONNECTIONS"@) matches Some(value)
                    ==> value is Some
                    && unsigned_value(value->0@, usize::MAX as int) is Some
                &&& variable(env, "ORBITRELAY_HANDSHAKE_TIMEOUT_MILLISECONDS"@)
                    matches Some(value) ==> value is Some
                    && unsigned_value(value->0@, u64::MAX as int) is Some
                &&& variable(env, "ORBITRELAY_SHUTDOWN_GRACE_PERIOD_MILLISECONDS"@)
                    matches Some(value) ==> value is Some
                    && unsigned_value(value->0@, u64::MAX as int) is Some
                &&& variable(env, "ORBITRELAY_ASSET_MAX_CONNECTIONS"@) matches Some(value)
                    ==> value is Some
                    && unsigned_value(value->0@, usize::MAX as int) is Some
                &&& variable(env, "ORBITRELAY_ASSET_MAX_ACTIVE_DOWNLOADS"@)
                    matches Some(value) ==> value is Some
                    && unsigned_value(value->0@, usize::MAX as int) is Some
                &&& variable(env, "ORBITRELAY_ASSET_CHUNK_SIZE"@) matches Some(value)
                    ==> value is Some
                    && unsigned_value(value->0@, usize::MAX as int) is Some
                &&& variable(env, "ORBITRELAY_ASSET_IDLE_TIMEOUT_MILLISECONDS"@)
                    matches Some(value) ==> value is Some
                    && unsigned_value(value->0@, u64::MAX as int) is Some
                &&& variable(env, "ORBITRELAY_ASSET_MAX_GRANTS"@) matches Some(value)
                    ==> value is Some
                    && unsigned_value(value->0@, usize::MAX as int) is Some
                &&& variable(env, "ORBITRELAY_ASSET_GRANT_TTL_SECONDS"@) matches Some(value)
                    ==> value is Some && signed_value(value->0@) is Some
                &&& variable(env, "ORBITRELAY_EVENT_STORE_PATH"@) matches Some(value)
                    ==> value is Some
                &&& variable(env, "ORBITRELAY_ASSET_STORE_DIR"@) matches Some(value)
                    ==> value is Some
                &&& variable(env, "ORBITRELAY_CATALOG_STORE_PATH"@) matches Some(value)
                    ==> value is Some
                &&& variable(env, "ORBITRELAY_ASSET_PUBLIC_BASE_URL"@) matches Some(value)
                    ==> value is Some
                &&& variable(env, "ORBITRELAY_WEBSOCKET_PATH"@) matches Some(value)
                    ==> value is Some
                &&& variable(env, "ORBITRELAY_ASSET_ALLOWED_ORIGINS"@) matches Some(value)
                    ==> value is Some
                &&& development ==> (variable(env, "ORBITRELAY_DEVELOPMENT_PDF_PATH"@) matches Some(
                    value,
                ) ==> value is Some)
                &&& variable(env, "ORBITRELAY_NODE_ID"@) matches Some(value) ==> value is Some
                    && readings.node_id is Some
                &&& variable(env, "ORBITRELAY_DEVELOPMENT_CANVAS_SESSION_ID"@)
                    matches Some(value) ==> value is Some
                    && readings.session_id is Some
                &&& variable(env, "ORBITRELAY_DEVELOPMENT_CANVAS_ID"@) matches Some(value)
                    ==> value is Some
                    && readings.canvas_id is Some
                &&& variable(env, "ORBITRELAY_DEVELOPMENT_CANVAS_LAYER_ID"@)
                    matches Some(value) ==> value is Some
                    && readings.layer_id is Some
                &&& variable(env, "ORBITRELAY_DEVELOPMENT_CANVAS_WIDTH"@) matches Some(value)
                    ==> value is Some
                    && readings.width is Some
                &&& variable(env, "ORBITRELAY_DEVELOPMENT_CANVAS_HEIGHT"@) matches Some(value)
                    ==> value is Some
                    && readings.height is Some
                &&& variable(env, "ORBITRELAY_BIND_ADDR"@) matches Some(value) ==> value is Some
                    && readings.bind_addr is Some
                &&& variable(env, "ORBITRELAY_ASSET_LISTEN_ADDR"@) matches Some(value)
                    ==> value is Some
                    && readings.asset_listen_addr is Some
            }
        }),
{
    if let Some(Some(text)) = variable(env, "ORBITRELAY_DEVELOPMENT_MODE"@) {
        law_truth_values(text@);
    }
    if let Some(Some(text)) = variable(env, "ORBITRELAY_ASSET_DELIVERY_ENABLED"@) {
        law_truth_values(text@);
    }
}

/// A list of origins names each of its parts between commas, without surrounding white space, in
/// their order, and leaves out what is empty.
pub proof fn law_origins_are_the_parts(parts: Seq<Seq<char>>, part: Seq<char>)
    ensures
        origins_in(Seq::empty()) == Seq::<Seq<char>>::empty(),
        trim_text(part).len() > 0 ==> origins_in(parts.push(part)) == origins_in(parts).push(
            trim_text(part),
        ),
        trim_text(part).len() == 0 ==> origins_in(parts.push(part)) == origins_in(parts),
{
    assert(parts.push(part).drop_last() =~= parts);
}

/// What loading an environment comes to: a configuration that was loaded is the default one with
/// every override, and can be used; an error is that of the first variable that cannot be read, and
/// otherwise what is wrong with the configuration that the overrides make. An environment that can
/// be read, and whose configuration can be used, is loaded.
pub proof fn law_loaded_configurations_can_be_used(
    env: Seq<EnvVariable>,
    readings: EnvReadings,
    config: ServerConfig,
    r: Result<ServerConfig, ServerError>,
)
    requires
        is_load_outcome(env, readings, config, r),
    ensures
        r matches Ok(loaded) ==> environment_problem(env, readings, config) is None && is_loaded(
            env,
            readings,
            config,
            loaded,
        ) && loaded.verdict() is Ok,
        r matches Err(error) ==> match environment_problem(env, readings, config) {
            Some(message) => error@ == ServerErrorView::Config(message),
            None => exists|made: ServerConfig| #[trigger]
                is_loaded(env, readings, config, made) && made.verdict() == Err::<
                    (),
                    ServerErrorView,
                >(error@),
        },
{
}

/// What is told of a variable that cannot be read: its name, and that it is not valid UTF-8 or what
/// it has to be.
pub proof fn law_unreadable_variables_are_named(env: Seq<EnvVariable>, name: Seq<char>, max: int)
    ensures
        variable(env, name) == Some(None::<String>) ==> text_problem(env, name) == Some(
            name + " is not valid UTF-8"@,
        ) && number_problem(env, name, max) == Some(name + " is not valid UTF-8"@) && bool_problem(
            env,
            name,
        ) == Some(name + " is not valid UTF-8"@),
        variable(env, name) != Some(None::<String>) ==> text_problem(env, name) is None,
        variable(env, name) matches Some(Some(text)) ==> {
            &&& unsigned_value(text@, max) is None ==> number_problem(env, name, max) == Some(
                name + " must be a positive integer"@,
            )
            &&& text@ != "true"@ && text@ != "1"@ && text@ != "false"@ && text@ != "0"@
                ==> bool_problem(env, name) == Some(name + " must be true, false, 1, or 0"@)
        },
{
    if let Some(Some(text)) = variable(env, name) {
        law_truth_values(text@);
    }
}

/// An environment that could be loaded but for one text that another component refused is told by
/// that variable.
pub proof fn law_refused_readings_are_named(
    env: Seq<EnvVariable>,
    readings: EnvReadings,
    config: ServerConfig,
)
    requires
        environment_problem(env, readings, config) is None,
    ensures
        is_set(env, "ORBITRELAY_NODE_ID"@) ==> environment_problem(
            env,
            EnvReadings { node_id: None, ..readings },
            config,
        ) == Some("ORBITRELAY_NODE_ID is not a valid node ID"@),
        is_set(env, "ORBITRELAY_DEVELOPMENT_CANVAS_SESSION_ID"@) ==> environment_problem(
            env,
            EnvReadings { session_id: None, ..readings },
            config,
        ) == Some("ORBITRELAY_DEVELOPMENT_CANVAS_SESSION_ID is not a valid SessionId"@),
        is_set(env, "ORBITRELAY_DEVELOPMENT_CANVAS_ID"@) ==> environment_problem(
            env,
            EnvReadings { canvas_id: None, ..readings },
            config,
        ) == Some("ORBITRELAY_DEVELOPMENT_CANVAS_ID is not a valid CanvasId"@),
        is_set(env, "ORBITRELAY_DEVELOPMENT_CANVAS_LAYER_ID"@) ==> environment_problem(
            env,
            EnvReadings { layer_id: None, ..readings },
            config,
        ) == Some("ORBITRELAY_DEVELOPMENT_CANVAS_LAYER_ID is not a valid LayerId"@),
        is_set(env, "ORBITRELAY_DEVELOPMENT_CANVAS_WIDTH"@) ==> environment_problem(
            env,
            EnvReadings { width: None, ..readings },
            config,
        ) == Some("ORBITRELAY_DEVELOPMENT_CANVAS_WIDTH must be a number"@),
        is_set(env, "ORBITRELAY_DEVELOPMENT_CANVAS_HEIGHT"@) ==> environment_problem(
            env,
            EnvReadings { height: None, ..readings },
            config,
        ) == Some("ORBITRELAY_DEVELOPMENT_CANVAS_HEIGHT must be a number"@),
        is_set(env, "ORBITRELAY_BIND_ADDR"@) ==> environment_problem(
            env,
            EnvReadings { bind_addr: None, ..readings },
            config,
        ) == Some("ORBITRELAY_BIND_ADDR is not a valid socket address"@),
        is_set(env, "ORBITRELAY_ASSET_LISTEN_ADDR"@) ==> environment_problem(
            env,
            EnvReadings { asset_listen_addr: None, ..readings },
            config,
        ) == Some("ORBITRELAY_ASSET_LISTEN_ADDR is not a valid socket address"@),
{
}

} // verus!
