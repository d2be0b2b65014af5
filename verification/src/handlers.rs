//! Handler contracts, the registry of installed handlers and the built-in handlers' allowlists.

use crate::commands::{placeholder, placeholder_name};
use crate::config::{CommandConfig, CommandView};
use crate::domain::{CommandParameters, CoreError, ErrorView, Parameters};
use crate::text::{blank, chars_of, is_blank, precedes, views};
use crate::text_map::{inserted, inserted_entries, lookup, TextMap};
use vstd::prelude::*;

verus! {

/// A value that is its own view.
#[derive(Debug, Clone, PartialEq)]
pub struct Held<T> {
    /// The value.
    pub value: T,
}

impl<T> View for Held<T> {
    type V = T;

    open spec fn view(&self) -> T {
        self.value
    }
}

/// Set of texts, iterated in code-point order.
pub type TextSet = TextMap<Held<bool>>;

/// What a [`TextSet`] holds.
pub type Texts = Seq<(Seq<char>, bool)>;

/// Whether a text is in a set.
pub open spec fn holds(set: Texts, text: Seq<char>) -> bool {
    lookup(set, text) is Some
}

/// The set of the first `count` texts of a list.
pub open spec fn set_of(texts: Seq<Seq<char>>, count: int) -> Texts
    decreases count,
{
    if count <= 0 {
        Seq::empty()
    } else {
        inserted(set_of(texts, count - 1), texts[count - 1], true)
    }
}

/// Collects texts into a set.
pub fn text_set(texts: &Vec<&str>) -> (set: TextSet)
    ensures
        set@ == set_of(views(texts@), texts@.len() as int),
{
    let mut set: TextSet = TextMap::new();
    let mut i: usize = 0;
    while i < texts.len()
        invariant
            0 <= i <= texts@.len(),
            set@ == set_of(views(texts@), i as int),
        decreases texts@.len() - i,
    {
        assert(views(texts@)[i as int] == texts@[i as int]@);
        set.insert(texts[i].to_owned(), Held { value: true });
        i = i + 1;
    }
    set
}

/// Whether a parameter belongs to the runtime and not to the configuration.
pub open spec fn is_internal(key: Seq<char>) -> bool {
    key.len() > 0 && key[0] == '_'
}

/// Tells whether a parameter belongs to the runtime.
pub fn internal(key: &str) -> (answer: bool)
    ensures
        answer == is_internal(key@),
{
    let chars = chars_of(key);
    chars.len() > 0 && chars[0] == '_'
}

/// Stable parameter contract published by a command handler.
#[derive(Debug, PartialEq)]
pub struct HandlerSchema {
    /// Stable handler name used by command configuration.
    pub name: String,
    /// Parameters that must be present.
    pub required_parameters: TextSet,
    /// Additional parameters accepted by the handler.
    pub optional_parameters: TextSet,
}

/// What a [`HandlerSchema`] declares.
pub struct SchemaView {
    /// Stable handler name.
    pub name: Seq<char>,
    /// Parameters that must be present.
    pub required: Texts,
    /// Additional parameters accepted by the handler.
    pub optional: Texts,
}

impl View for HandlerSchema {
    type V = SchemaView;

    open spec fn view(&self) -> SchemaView {
        SchemaView {
            name: self.name@,
            required: self.required_parameters@,
            optional: self.optional_parameters@,
        }
    }
}

impl SchemaView {
    /// Whether every required parameter is configured.
    pub open spec fn complete(self, parameters: Parameters) -> bool {
        forall|i: int|
            0 <= i < self.required.len() ==> !is_internal((#[trigger] self.required[i]).0) && lookup(
                parameters,
                self.required[i].0,
            ) is Some
    }

    /// Whether every configured parameter is declared.
    pub open spec fn declared(self, parameters: Parameters) -> bool {
        forall|i: int|
            0 <= i < parameters.len() && !is_internal((#[trigger] parameters[i]).0) ==> holds(
                self.required,
                parameters[i].0,
            ) || holds(self.optional, parameters[i].0)
    }

    /// What is wrong with configured parameters.
    pub open spec fn error(self, parameters: Parameters) -> Option<ErrorView> {
        if !self.complete(parameters) {
            Some(
                ErrorView::Command("handler "@ + self.name + " is missing required parameters"@),
            )
        } else if !self.declared(parameters) {
            Some(ErrorView::Command("handler "@ + self.name + " received unknown parameters"@))
        } else if !filled(parameters) {
            Some(ErrorView::Command("handler "@ + self.name + " received an empty parameter"@))
        } else {
            None
        }
    }
}

/// Whether no configured parameter is blank.
pub open spec fn filled(parameters: Parameters) -> bool {
    forall|i: int|
        0 <= i < parameters.len() && !is_internal((#[trigger] parameters[i]).0) ==> !is_blank(
            parameters[i].1,
        )
}

/// Whether a check failed with the expected error, or passed where none is expected.
pub open spec fn fails_with(checked: Result<(), CoreError>, expected: Option<ErrorView>) -> bool {
    match (checked, expected) {
        (Ok(_), None) => true,
        (Err(error), Some(view)) => error@ == view,
        _ => false,
    }
}

/// A command error about a handler.
fn handler_error(name: &str, problem: &str) -> (error: CoreError)
    ensures
        error@ == ErrorView::Command("handler "@ + name@ + problem@),
{
    let mut message = "handler ".to_owned();
    message.append(name);
    message.append(problem);
    CoreError::Command(message)
}

impl HandlerSchema {
    /// Creates a schema from required and optional parameter names.
    pub fn new(
        name: &str,
        required_parameters: &Vec<&str>,
        optional_parameters: &Vec<&str>,
    ) -> (schema: Self)
        ensures
            schema@ == (SchemaView {
                name: name@,
                required: set_of(views(required_parameters@), required_parameters@.len() as int),
                optional: set_of(views(optional_parameters@), optional_parameters@.len() as int),
            }),
    {
        HandlerSchema {
            name: name.to_owned(),
            required_parameters: text_set(required_parameters),
            optional_parameters: text_set(optional_parameters),
        }
    }

    /// Tells whether every required parameter is configured.
    fn is_complete(&self, parameters: &CommandParameters) -> (answer: bool)
        ensures
            answer == self@.complete(parameters@),
    {
        let mut i: usize = 0;
        while i < self.required_parameters.len()
            invariant
                0 <= i <= self.required_parameters@.len(),
                forall|j: int|
                    0 <= j < i ==> !is_internal((#[trigger] self@.required[j]).0) && lookup(
                        parameters@,
                        self@.required[j].0,
                    ) is Some,
            decreases self.required_parameters@.len() - i,
        {
            let key = self.required_parameters.key_at(i);
            assert(self@.required[i as int].0 == key@);
            if internal(key) || !parameters.contains_key(key) {
                return false;
            }
            i = i + 1;
        }
        true
    }

    /// Tells whether every configured parameter is declared.
    fn is_declared(&self, parameters: &CommandParameters) -> (answer: bool)
        ensures
            answer == self@.declared(parameters@),
    {
        let mut i: usize = 0;
        while i < parameters.len()
            invariant
                0 <= i <= parameters@.len(),
                forall|j: int|
                    0 <= j < i && !is_internal((#[trigger] parameters@[j]).0) ==> holds(
                        self@.required,
                        parameters@[j].0,
                    ) || holds(self@.optional, parameters@[j].0),
            decreases parameters@.len() - i,
        {
            let key = parameters.key_at(i);
            if !internal(key) && !self.required_parameters.contains_key(key)
                && !self.optional_parameters.contains_key(key) {
                assert(!is_internal(parameters@[i as int].0));
                return false;
            }
            i = i + 1;
        }
        true
    }

    /// Validates configured parameters without accepting internal runtime keys.
    pub fn validate(&self, parameters: &CommandParameters) -> (checked: Result<(), CoreError>)
        ensures
            fails_with(checked, self@.error(parameters@)),
    {
        if !self.is_complete(parameters) {
            return Err(handler_error(&self.name, " is missing required parameters"));
        }
        if !self.is_declared(parameters) {
            return Err(handler_error(&self.name, " received unknown parameters"));
        }
        if !all_filled(parameters) {
            return Err(handler_error(&self.name, " received an empty parameter"));
        }
        Ok(())
    }
}

/// Tells whether no configured parameter is blank.
fn all_filled(parameters: &CommandParameters) -> (answer: bool)
    ensures
        answer == filled(parameters@),
{
    let mut i: usize = 0;
    while i < parameters.len()
        invariant
            0 <= i <= parameters@.len(),
            forall|j: int|
                0 <= j < i && !is_internal((#[trigger] parameters@[j]).0) ==> !is_blank(
                    parameters@[j].1,
                ),
        decreases parameters@.len() - i,
    {
        if !internal(parameters.key_at(i)) && blank(parameters.value_at(i)) {
            assert(!is_internal(parameters@[i as int].0));
            return false;
        }
        i = i + 1;
    }
    true
}

/// Public extension point for application-specific typed actions.
pub trait CommandHandler: Sized {
    /// The stable name and parameter allowlist.
    open spec fn declares(&self) -> SchemaView {
        arbitrary()
    }

    /// What is wrong with parameters for this handler.
    open spec fn rejects(&self, parameters: Parameters) -> Option<ErrorView> {
        self.declares().error(parameters)
    }

    /// Declares the stable name and parameter allowlist.
    fn schema(&self) -> (schema: HandlerSchema)
        ensures
            schema@ == self.declares(),
    ;

    /// Validates both the schema and handler-specific parameter values.
    fn validate_parameters(&self, parameters: &CommandParameters) -> (checked: Result<(), CoreError>)
        ensures
            fails_with(checked, self.rejects(parameters@)),
    ;
}

/// Whether a handler name is made of ASCII lower-case letters and underscores.
pub open spec fn handler_name_valid(name: Seq<char>) -> bool {
    &&& name.len() > 0
    &&& forall|i: int| 0 <= i < name.len() ==> ('a' <= #[trigger] name[i] <= 'z' || name[i] == '_')
}

/// Tells whether a handler name is valid.
fn is_handler_name(name: &str) -> (valid: bool)
    ensures
        valid == handler_name_valid(name@),
{
    let chars = chars_of(name);
    let mut i: usize = 0;
    while i < chars.len()
        invariant
            0 <= i <= chars@.len(),
            chars@ == name@,
            forall|j: int| 0 <= j < i ==> ('a' <= #[trigger] chars@[j] <= 'z' || chars@[j] == '_'),
        decreases chars@.len() - i,
    {
        let c = chars[i];
        if !((c >= 'a' && c <= 'z') || c == '_') {
            return false;
        }
        i = i + 1;
    }
    chars.len() > 0
}

/// Whether no parameter is both required and optional.
pub open spec fn disjoint(schema: SchemaView) -> bool {
    forall|i: int|
        0 <= i < schema.required.len() ==> !holds(schema.optional, (#[trigger] schema.required[i]).0)
}

/// Tells whether no parameter is both required and optional.
fn is_disjoint(schema: &HandlerSchema) -> (answer: bool)
    ensures
        answer == disjoint(schema@),
{
    let mut i: usize = 0;
    while i < schema.required_parameters.len()
        invariant
            0 <= i <= schema.required_parameters@.len(),
            forall|j: int|
                0 <= j < i ==> !holds(schema@.optional, (#[trigger] schema@.required[j]).0),
        decreases schema.required_parameters@.len() - i,
    {
        assert(schema@.required[i as int].0 == schema.required_parameters@[i as int].0);
        if schema.optional_parameters.contains_key(schema.required_parameters.key_at(i)) {
            return false;
        }
        i = i + 1;
    }
    true
}

/// The parameters of an action with each placeholder among the first `count` replaced by a
/// sample of its slot.
pub open spec fn sampled(command: CommandView, parameters: Parameters, count: int) -> Result<
    Parameters,
    ErrorView,
>
    decreases count,
{
    if count <= 0 {
        Ok(Seq::empty())
    } else {
        match sampled(command, parameters, count - 1) {
            Err(error) => Err(error),
            Ok(earlier) => {
                let (key, value) = parameters[count - 1];
                match placeholder_name(value) {
                    None => Ok(inserted(earlier, key, value)),
                    Some(name) => match lookup(command.slots, name) {
                        Some(slot) => match slot.sample_value(true) {
                            Some(sample) => Ok(inserted(earlier, key, sample)),
                            None => Err(ErrorView::Command("invalid slot: "@ + name)),
                        },
                        None => Err(ErrorView::Command("invalid slot: "@ + name)),
                    },
                }
            },
        }
    }
}

proof fn sampled_error_stays(command: CommandView, parameters: Parameters, count: int, total: int)
    requires
        sampled(command, parameters, count) is Err,
        count <= total,
    ensures
        sampled(command, parameters, total) == sampled(command, parameters, count),
    decreases total,
{
    if count < total && total > 0 {
        sampled_error_stays(command, parameters, count, total - 1);
    }
}

/// Replaces each placeholder by a sample of its slot.
fn sample_parameters(command: &CommandConfig, parameters: &CommandParameters) -> (sample: Result<
    CommandParameters,
    CoreError,
>)
    ensures
        match (sample, sampled(command@, parameters@, parameters@.len() as int)) {
            (Ok(sample), Ok(expected)) => sample@ == expected,
            (Err(error), Err(expected)) => error@ == expected,
            _ => false,
        },
{
    let mut sample: CommandParameters = TextMap::new();
    let mut i: usize = 0;
    while i < parameters.len()
        invariant
            0 <= i <= parameters@.len(),
            sampled(command@, parameters@, i as int) == Ok::<Parameters, ErrorView>(sample@),
        decreases parameters@.len() - i,
    {
        proof {
            if sampled(command@, parameters@, i + 1) is Err {
                sampled_error_stays(command@, parameters@, i + 1, parameters@.len() as int);
            }
        }
        let key = parameters.key_at(i);
        let value = parameters.value_at(i);
        match placeholder(value) {
            None => {
                sample.insert(key.clone(), value.clone());
            },
            Some(name) => {
                let found = match command.slots.get(&name) {
                    Some(slot) => slot.sample(true),
                    None => None,
                };
                match found {
                    Some(found) => {
                        sample.insert(key.clone(), found);
                    },
                    None => {
                        let mut message = "invalid slot: ".to_owned();
                        message.append(&name);
                        return Err(CoreError::Command(message));
                    },
                }
            },
        }
        i = i + 1;
    }
    Ok(sample)
}

/// Runtime registry of explicitly installed command handlers.
pub struct HandlerRegistry<H: CommandHandler> {
    handlers: TextMap<Held<H>>,
}

impl<H: CommandHandler> View for HandlerRegistry<H> {
    type V = Seq<(Seq<char>, H)>;

    closed spec fn view(&self) -> Seq<(Seq<char>, H)> {
        self.handlers@
    }
}

/// What is wrong with an action.
pub open spec fn action_problem<H: CommandHandler>(
    handlers: Seq<(Seq<char>, H)>,
    handler: Seq<char>,
    parameters: Parameters,
) -> Option<ErrorView> {
    match lookup(handlers, handler) {
        None => Some(ErrorView::Command("unknown handler: "@ + handler)),
        Some(found) => found.rejects(parameters),
    }
}

/// What is wrong with the first `count` actions of a command.
pub open spec fn command_problem<H: CommandHandler>(
    handlers: Seq<(Seq<char>, H)>,
    command: CommandView,
    count: int,
) -> Option<ErrorView>
    decreases count,
{
    if count <= 0 {
        None
    } else {
        match command_problem(handlers, command, count - 1) {
            Some(error) => Some(error),
            None => {
                let action = command.resolved()[count - 1];
                match sampled(command, action.parameters, action.parameters.len() as int) {
                    Err(error) => Some(error),
                    Ok(parameters) => action_problem(handlers, action.handler, parameters),
                }
            },
        }
    }
}

proof fn command_problem_stays<H: CommandHandler>(
    handlers: Seq<(Seq<char>, H)>,
    command: CommandView,
    count: int,
    total: int,
)
    requires
        command_problem(handlers, command, count) is Some,
        count <= total,
    ensures
        command_problem(handlers, command, total) == command_problem(handlers, command, count),
    decreases total,
{
    if count < total && total > 0 {
        command_problem_stays(handlers, command, count, total - 1);
    }
}

/// Whether a handler may be added to a registry.
pub open spec fn registrable<H: CommandHandler>(handlers: Seq<(Seq<char>, H)>, schema: SchemaView) -> bool {
    &&& handler_name_valid(schema.name)
    &&& disjoint(schema)
    &&& lookup(handlers, schema.name) is None
}

/// Whether every handler is registered under its declared name.
pub open spec fn named<H: CommandHandler>(handlers: Seq<(Seq<char>, H)>) -> bool {
    forall|i: int|
        0 <= i < handlers.len() ==> (#[trigger] handlers[i]).0 == handlers[i].1.declares().name
}

impl<H: CommandHandler> HandlerRegistry<H> {
    #[verifier::type_invariant]
    spec fn well_named(self) -> bool {
        named(self@)
    }

    /// Creates an empty registry.
    pub fn new() -> (registry: Self)
        ensures
            registry@ == Seq::<(Seq<char>, H)>::empty(),
    {
        HandlerRegistry { handlers: TextMap::new() }
    }

    /// Registers one handler, rejecting duplicate or unsafe names and schemas.
    pub fn register(&mut self, handler: H) -> (added: Result<(), CoreError>)
        ensures
            match added {
                Ok(_) => registrable(old(self)@, handler.declares()) && final(self)@ == inserted(
                    old(self)@,
                    handler.declares().name,
                    handler,
                ),
                Err(error) => !registrable(old(self)@, handler.declares()) && final(self)@ == old(
                    self,
                )@ && error@ == ErrorView::Command(
                    "invalid or duplicate handler schema: "@ + handler.declares().name,
                ),
            },
    {
        let schema = handler.schema();
        if !is_handler_name(&schema.name) || !is_disjoint(&schema) || self.handlers.contains_key(
            &schema.name,
        ) {
            let mut message = "invalid or duplicate handler schema: ".to_owned();
            message.append(&schema.name);
            return Err(CoreError::Command(message));
        }
        let ghost before = self@;
        proof {
            use_type_invariant(&*self);
        }
        let mut handlers: TextMap<Held<H>> = TextMap::new();
        std::mem::swap(&mut handlers, &mut self.handlers);
        handlers.insert(schema.name, Held { value: handler });
        proof {
            assert forall|i: int| 0 <= i < handlers@.len() implies (#[trigger] handlers@[i]).0
                == handlers@[i].1.declares().name by {
                inserted_entries(before, handler.declares().name, handler, i);
            }
        }
        self.handlers = handlers;
        Ok(())
    }

    /// Validates one command against the registered extension contract.
    pub fn validate_command(&self, command: &CommandConfig) -> (checked: Result<(), CoreError>)
        ensures
            fails_with(
                checked,
                command_problem(self@, command@, command@.resolved().len() as int),
            ),
    {
        let actions = command.resolved_actions();
        let mut i: usize = 0;
        while i < actions.len()
            invariant
                0 <= i <= actions@.len(),
                views(actions@) == command@.resolved(),
                command_problem(self@, command@, i as int) is None,
            decreases actions@.len() - i,
        {
            assert(command@.resolved()[i as int] == actions@[i as int]@);
            proof {
                if command_problem(self@, command@, i + 1) is Some {
                    command_problem_stays(self@, command@, i + 1, actions@.len() as int);
                }
            }
            match sample_parameters(command, &actions[i].parameters) {
                Err(error) => {
                    return Err(error);
                },
                Ok(parameters) => {
                    let checked = self.validate_action(&actions[i].handler, &parameters);
                    if checked.is_err() {
                        return checked;
                    }
                },
            }
            i = i + 1;
        }
        Ok(())
    }

    /// Validates one action against its installed extension contract.
    pub fn validate_action(&self, handler: &str, parameters: &CommandParameters) -> (checked: Result<
        (),
        CoreError,
    >)
        ensures
            fails_with(checked, action_problem(self@, handler@, parameters@)),
    {
        match self.handlers.get(handler) {
            None => {
                let mut message = "unknown handler: ".to_owned();
                message.append(handler);
                Err(CoreError::Command(message))
            },
            Some(found) => found.value.validate_parameters(parameters),
        }
    }

    /// Hands out the handler that may run with parameters it has accepted.
    pub fn authorize(&self, handler: &str, parameters: &CommandParameters) -> (found: Result<&H, CoreError>)
        ensures
            match (found, action_problem(self@, handler@, parameters@)) {
                (Ok(found), None) => lookup(self@, handler@) == Some(*found),
                (Err(error), Some(expected)) => error@ == expected,
                _ => false,
            },
    {
        match self.handlers.get(handler) {
            None => {
                let mut message = "unknown handler: ".to_owned();
                message.append(handler);
                Err(CoreError::Command(message))
            },
            Some(found) => match found.value.validate_parameters(parameters) {
                Ok(_) => Ok(&found.value),
                Err(error) => Err(error),
            },
        }
    }

    /// Returns registered handler names for diagnostics, in order.
    pub fn handler_names(&self) -> (names: Vec<String>)
        ensures
            names@.len() == self@.len(),
            forall|i: int| 0 <= i < names@.len() ==> (#[trigger] names@[i])@ == self@[i].0,
    {
        let mut names: Vec<String> = Vec::new();
        let mut i: usize = 0;
        while i < self.handlers.len()
            invariant
                0 <= i <= self@.len(),
                names@.len() == i,
                self@ == self.handlers@,
                forall|j: int| 0 <= j < i ==> (#[trigger] names@[j])@ == self@[j].0,
            decreases self@.len() - i,
        {
            names.push(self.handlers.key_at(i).clone());
            i = i + 1;
        }
        names
    }

    /// Returns stable handler contracts sorted by name for diagnostics and GUI discovery.
    pub fn schemas(&self) -> (schemas: Vec<HandlerSchema>)
        ensures
            schemas@.len() == self@.len(),
            forall|i: int|
                0 <= i < schemas@.len() ==> (#[trigger] schemas@[i])@ == self@[i].1.declares(),
            forall|i: int| 0 <= i < self@.len() ==> (#[trigger] self@[i]).0 == self@[i].1.declares().name,
            forall|i: int, j: int|
                0 <= i < j < schemas@.len() ==> precedes(
                    (#[trigger] schemas@[i])@.name,
                    (#[trigger] schemas@[j])@.name,
                ),
    {
        proof {
            use_type_invariant(self);
        }
        let mut schemas: Vec<HandlerSchema> = Vec::new();
        let mut i: usize = 0;
        let count: usize = self.handlers.len();
        while i < count
            invariant
                0 <= i <= count == self@.len(),
                schemas@.len() == i,
                self@ == self.handlers@,
                forall|j: int|
                    0 <= j < i ==> (#[trigger] schemas@[j])@ == self@[j].1.declares(),
            decreases count - i,
        {
            schemas.push(self.handlers.value_at(i).value.schema());
            i = i + 1;
        }
        assert forall|i: int, j: int| 0 <= i < j < schemas@.len() implies precedes(
            (#[trigger] schemas@[i])@.name,
            (#[trigger] schemas@[j])@.name,
        ) by {
            assert(precedes(self@[i].0, self@[j].0));
        }
        schemas
    }
}

/// A handler is registered exactly if its name is made of lower-case letters and underscores, no
/// parameter is both required and optional, and its name is free.
pub proof fn handlers_are_registered_once<H: CommandHandler>(
    handlers: Seq<(Seq<char>, H)>,
    schema: SchemaView,
)
    ensures
        registrable(handlers, schema) <==> {
            &&& schema.name.len() > 0
            &&& forall|i: int|
                0 <= i < schema.name.len() ==> ('a' <= #[trigger] schema.name[i] && schema.name[i]
                    <= 'z') || schema.name[i] == '_'
            &&& forall|i: int|
                0 <= i < schema.required.len() ==> lookup(
                    schema.optional,
                    (#[trigger] schema.required[i]).0,
                ) is None
            &&& lookup(handlers, schema.name) is None
        },
{
    if registrable(handlers, schema) {
        assert forall|i: int| 0 <= i < schema.required.len() implies lookup(
            schema.optional,
            (#[trigger] schema.required[i]).0,
        ) is None by {
            assert(!holds(schema.optional, schema.required[i].0));
        }
    }
}

/// A check passes exactly if no error is expected, and fails with the one that is.
pub proof fn checks_fail_as_expected(checked: Result<(), CoreError>, expected: Option<ErrorView>)
    requires
        fails_with(checked, expected),
    ensures
        checked is Ok <==> expected is None,
        checked matches Err(error) ==> expected == Some(error@),
{
}

/// An action is refused where its handler is unknown, and otherwise for the reason that the handler
/// has.
pub proof fn unknown_handlers_are_refused<H: CommandHandler>(
    handlers: Seq<(Seq<char>, H)>,
    handler: Seq<char>,
    parameters: Parameters,
)
    ensures
        lookup(handlers, handler) is None ==> action_problem(handlers, handler, parameters) is Some,
        lookup(handlers, handler) matches Some(found) ==> action_problem(handlers, handler, parameters)
            == found.rejects(parameters),
{
}

} // verus!
