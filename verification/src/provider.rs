//! The provider: the client that it calls the upstream with, and its entry points.
use vstd::prelude::*;

use crate::exchange::{count_opening, open_count, open_messages, opening, Step};
use crate::model::{
    catalog, law_empty_name_stands_for_no_model, names_of_all, resolved, shared_id,
};
use crate::text::{texts, texts_sorted};

verus! {

/// The client of the upstream, or what is wrong with its configuration.
#[derive(Debug)]
enum ClientState<C> {
    Ready(C),
    Invalid(String),
}

/// The OpenCode Go provider over a client of type `C`.
#[derive(Debug)]
pub struct OpenCodeProvider<C> {
    client: ClientState<C>,
}

/// The model that a request names; a request that names none asks for the empty name.
pub open spec fn requested_model(model: Option<&str>) -> Seq<char> {
    match model {
        Some(model) => model@,
        None => Seq::empty(),
    }
}

impl<C> OpenCodeProvider<C> {
    /// The client, or what is wrong with its configuration.
    pub closed spec fn state(&self) -> Result<C, Seq<char>> {
        match self.client {
            ClientState::Ready(client) => Ok(client),
            ClientState::Invalid(error) => Err(error@),
        }
    }

    /// What is wrong with the configuration, if anything is.
    pub open spec fn invalid(&self) -> Option<Seq<char>> {
        match self.state() {
            Ok(_) => None,
            Err(error) => Some(error),
        }
    }

    /// A provider over the client that the configuration gave, or over the reason why it gave
    /// none.
    pub fn new(built: Result<C, String>) -> (provider: Self)
        ensures
            provider.state() == (match built {
                Ok(client) => Ok(client),
                Err(error) => Err(error@),
            }),
    {
        match built {
            Ok(client) => OpenCodeProvider { client: ClientState::Ready(client) },
            Err(error) => OpenCodeProvider { client: ClientState::Invalid(error) },
        }
    }

    /// A provider over a client.
    pub fn with_client(client: C) -> (provider: Self)
        ensures
            provider.state() == Ok::<C, Seq<char>>(client),
    {
        OpenCodeProvider { client: ClientState::Ready(client) }
    }

    /// The client, or what is wrong with its configuration.
    pub fn client(&self) -> (client: Result<&C, String>)
        ensures
            match client {
                Ok(client) => self.state() == Ok::<C, Seq<char>>(*client),
                Err(error) => self.state() == Err::<C, Seq<char>>(error@),
            },
    {
        match &self.client {
            ClientState::Ready(client) => Ok(client),
            ClientState::Invalid(error) => Err(error.clone()),
        }
    }

    /// The name of the provider.
    pub fn name(&self) -> (name: &'static str)
        ensures
            name@ == "opencode"@,
    {
        "opencode"
    }

    /// The names of the models that the provider serves.
    pub fn supported_models(&self) -> (names: Vec<String>)
        ensures
            texts_sorted(texts(names@)),
            texts(names@).to_multiset() == names_of_all(catalog()).to_multiset(),
            texts(names@).no_duplicates(),
            forall|name: Seq<char>| #[trigger]
                texts(names@).contains(name) <==> resolved(name) is Some && name != shared_id(),
            names@.len() == 33,
    {
        advertised_models()
    }

    /// The first step for a messages request.
    pub fn handle_messages<T, R>(&self, model: Option<&str>, stream: bool) -> (step: Step<T, R>)
        ensures
            step@ == opening::<T, R>(self.invalid(), requested_model(model), stream),
    {
        let requested = match model {
            Some(model) => model.to_owned(),
            None => String::new(),
        };
        let invalid = match self.client() {
            Ok(_) => None,
            Err(error) => Some(error),
        };
        open_messages(invalid, requested.as_str(), stream)
    }

    /// The first step for a request to count tokens.
    pub fn handle_count_tokens<T, R>(&self, model: Option<&str>) -> (step: Step<T, R>)
        ensures
            step@ == count_opening::<T, R>(requested_model(model)),
    {
        let requested = match model {
            Some(model) => model.to_owned(),
            None => String::new(),
        };
        open_count(requested.as_str())
    }
}

/// The names of the models that the provider serves.
pub fn advertised_models() -> (names: Vec<String>)
    ensures
        texts_sorted(texts(names@)),
        texts(names@).to_multiset() == names_of_all(catalog()).to_multiset(),
        texts(names@).no_duplicates(),
        forall|name: Seq<char>| #[trigger]
            texts(names@).contains(name) <==> resolved(name) is Some && name != shared_id(),
        names@.len() == 33,
{
    crate::model::advertised_models()
}

/// A request asks for the model that it names, by exactly that name. One that names none asks for
/// the empty name, which stands for no model.
pub proof fn law_requested_model_is_the_one_named(model: Option<&str>)
    ensures
        model matches Some(name) ==> requested_model(model) == name@,
        model is None ==> requested_model(model).len() == 0,
        model is None ==> resolved(requested_model(model)) is None,
{
    if model is None {
        law_empty_name_stands_for_no_model(requested_model(model));
    }
}

/// A provider is held to be configured wrongly exactly where it has no client, and for the very
/// reason why it has none.
pub proof fn law_reason_is_why_there_is_no_client<C>(provider: OpenCodeProvider<C>)
    ensures
        provider.invalid() is None <==> provider.state() is Ok,
        provider.state() matches Err(reason) ==> provider.invalid() == Some(reason),
{
}

} // verus!
