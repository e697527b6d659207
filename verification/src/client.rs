//! The client: its builder, the endpoint that the builder resolves to, and the
//! connected client that shapes requests.
//!
//! Nothing here touches the network. The builder resolves to an [`Endpoint`];
//! whoever owns the transport connects to the endpoint's address and reports
//! the outcome; the connected client then turns caller data into requests.

use vstd::prelude::*;
use vstd::string::StringExecFns;
use crate::error::{ConfigError, ServingError};
use crate::features::FeatureMap;
use crate::fields::FieldMap;
use crate::model::{ModelDescription, ModelSpec, ModelSpecView};
use crate::pixels::{DecodedImage, Image};
use crate::requests::{
    is_image_input,
    is_input_of,
    ClassificationRequest,
    Example,
    ExampleList,
    Input,
    PredictRequest,
};
use crate::tensor::{accepts_samples, build_tensor};
use crate::text::{decimal, decimal_reads_back, push_decimal};

verus! {

/// The signature that a client runs where none was named.
pub open spec fn default_signature_name() -> Seq<char> {
    "serving_default"@
}

/// The address of the server at `hostname` and `port`.
pub open spec fn endpoint_address(hostname: Seq<char>, port: u16) -> Seq<char> {
    "http://"@ + hostname + ":"@ + decimal(port as nat)
}

/// Connection parameters, gathered one by one before a client exists.
///
/// Hostname and port are required; the signature name is `serving_default`
/// unless another is set.
#[derive(Debug)]
pub struct TensorflowServingBuilder {
    hostname: Option<String>,
    port: Option<u16>,
    signature_name: Option<String>,
}

/// What a builder holds, with each string taken by its characters.
pub struct BuilderView {
    pub hostname: Option<Seq<char>>,
    pub port: Option<u16>,
    pub signature_name: Option<Seq<char>>,
}

/// Where to connect, and the signature to run once connected.
#[derive(Debug, PartialEq, Eq)]
pub struct Endpoint {
    address: String,
    signature_name: String,
}

/// What an endpoint holds, with each string taken by its characters.
pub struct EndpointView {
    pub address: Seq<char>,
    pub signature_name: Seq<char>,
}

/// A client of one server: the channel to it, and the signature that its
/// requests name. `C` is the channel type of the transport in use.
#[derive(Debug)]
pub struct TensorflowServing<C> {
    client: C,
    signature_name: String,
}

/// What a client holds, with the signature name taken by its characters.
pub struct ClientView<C> {
    pub client: C,
    pub signature_name: Seq<char>,
}

impl BuilderView {
    /// What the builder resolves to: an error for the first required field
    /// that is missing, hostname before port, or else the endpoint.
    pub open spec fn resolved(self) -> Result<EndpointView, ConfigError> {
        if self.hostname is None {
            Err(ConfigError::MissingHostname)
        } else if self.port is None {
            Err(ConfigError::MissingPort)
        } else {
            Ok(
                EndpointView {
                    address: endpoint_address(self.hostname.unwrap(), self.port.unwrap()),
                    signature_name: match self.signature_name {
                        Some(name) => name,
                        None => default_signature_name(),
                    },
                },
            )
        }
    }
}

impl EndpointView {
    /// The client that a channel to this endpoint makes.
    pub open spec fn connected<C>(self, client: C) -> ClientView<C> {
        ClientView { client, signature_name: self.signature_name }
    }
}

impl<C> ClientView<C> {
    /// The model spec that this client writes for a model.
    pub open spec fn model_spec(self, name: Seq<char>, version: Option<i64>) -> ModelSpecView {
        ModelSpecView { name, version, signature_name: self.signature_name }
    }
}

impl View for TensorflowServingBuilder {
    type V = BuilderView;

    closed spec fn view(&self) -> BuilderView {
        BuilderView {
            hostname: match self.hostname {
                Some(hostname) => Some(hostname@),
                None => None,
            },
            port: self.port,
            signature_name: match self.signature_name {
                Some(name) => Some(name@),
                None => None,
            },
        }
    }
}

impl View for Endpoint {
    type V = EndpointView;

    closed spec fn view(&self) -> EndpointView {
        EndpointView { address: self.address@, signature_name: self.signature_name@ }
    }
}

impl<C> View for TensorflowServing<C> {
    type V = ClientView<C>;

    closed spec fn view(&self) -> ClientView<C> {
        ClientView { client: self.client, signature_name: self.signature_name@ }
    }
}

impl Default for TensorflowServingBuilder {
    /// A builder with nothing set.
    fn default() -> (builder: Self)
        ensures
            builder@ == (BuilderView { hostname: None, port: None, signature_name: None }),
    {
        TensorflowServingBuilder { hostname: None, port: None, signature_name: None }
    }
}

impl TensorflowServingBuilder {
    /// Set the hostname, replacing any earlier one.
    pub fn hostname(&mut self, hostname: &str) -> (builder: &mut Self)
        ensures
            builder@ == (BuilderView { hostname: Some(hostname@), ..old(self)@ }),
            final(self)@ == final(builder)@,
    {
        self.hostname = Some(String::from_str(hostname));
        self
    }

    /// Set the port, replacing any earlier one.
    pub fn port(&mut self, port: u16) -> (builder: &mut Self)
        ensures
            builder@ == (BuilderView { port: Some(port), ..old(self)@ }),
            final(self)@ == final(builder)@,
    {
        self.port = Some(port);
        self
    }

    /// Set the signature name, replacing any earlier one.
    pub fn signature_name(&mut self, signature_name: &str) -> (builder: &mut Self)
        ensures
            builder@ == (BuilderView { signature_name: Some(signature_name@), ..old(self)@ }),
            final(self)@ == final(builder)@,
    {
        self.signature_name = Some(String::from_str(signature_name));
        self
    }

    /// Resolve the parameters into an endpoint.
    ///
    /// Fails, and leaves the builder as it is, where the hostname or the port
    /// is missing. On success the hostname and the signature name have moved
    /// out of the builder.
    pub fn build(&mut self) -> (built: Result<Endpoint, ServingError>)
        ensures
            match old(self)@.resolved() {
                Ok(endpoint) => {
                    &&& built is Ok
                    &&& built.unwrap()@ == endpoint
                    &&& final(self)@ == (BuilderView {
                        hostname: None,
                        port: old(self)@.port,
                        signature_name: None,
                    })
                },
                Err(missing) => {
                    &&& built == Err::<Endpoint, ServingError>(ServingError::Config(missing))
                    &&& final(self)@ == old(self)@
                },
            },
    {
        if self.hostname.is_none() {
            return Err(ServingError::Config(ConfigError::MissingHostname));
        }
        let port = match self.port {
            Some(port) => port,
            None => {
                return Err(ServingError::Config(ConfigError::MissingPort));
            },
        };
        let signature_name = match self.signature_name.take() {
            Some(name) => name,
            None => String::from_str("serving_default"),
        };
        let hostname = self.hostname.take().unwrap();
        let mut address = String::from_str("http://");
        address.append(hostname.as_str());
        address.append(":");
        push_decimal(&mut address, port as u64);
        Ok(Endpoint { address, signature_name })
    }
}

impl Endpoint {
    /// The address to connect to.
    pub fn address(&self) -> (address: &str)
        ensures
            address@ == self@.address,
    {
        self.address.as_str()
    }

    /// The signature that the client will run.
    pub fn signature_name(&self) -> (name: &str)
        ensures
            name@ == self@.signature_name,
    {
        self.signature_name.as_str()
    }

    /// Turn the outcome of the connection attempt into a client: the channel
    /// makes the client, a failure becomes a connection error that carries
    /// the transport's diagnostic.
    pub fn connected<C>(self, outcome: Result<C, String>) -> (client: Result<
        TensorflowServing<C>,
        ServingError,
    >)
        ensures
            match outcome {
                Ok(channel) => client is Ok && client.unwrap()@ == self@.connected(channel),
                Err(diagnostic) => client == Err::<TensorflowServing<C>, ServingError>(
                    ServingError::Connection(diagnostic),
                ),
            },
    {
        match outcome {
            Ok(channel) => Ok(
                TensorflowServing { client: channel, signature_name: self.signature_name },
            ),
            Err(diagnostic) => Err(ServingError::Connection(diagnostic)),
        }
    }
}

impl TensorflowServing<()> {
    /// A builder with nothing set.
    pub fn new() -> (builder: TensorflowServingBuilder)
        ensures
            builder@ == (BuilderView { hostname: None, port: None, signature_name: None }),
    {
        TensorflowServingBuilder::default()
    }
}

impl<C> TensorflowServing<C> {
    /// The channel to the server.
    pub fn client(&self) -> (client: &C)
        ensures
            *client == self@.client,
    {
        &self.client
    }

    /// The signature that requests name.
    pub fn signature_name(&self) -> (name: &str)
        ensures
            name@ == self@.signature_name,
    {
        self.signature_name.as_str()
    }

    /// The model spec of a request for the model described: its name, its
    /// version if one was given, and this client's signature name.
    pub fn build_model_spec(&self, model_description: ModelDescription<&str>) -> (spec: ModelSpec)
        ensures
            spec@ == self@.model_spec(model_description.name@, model_description.version),
    {
        ModelSpec {
            name: String::from_str(model_description.name),
            version: model_description.version,
            signature_name: self.signature_name.clone(),
        }
    }

    /// The input of a classification: the payloads encoded as the features of
    /// one example, and that example as a list of one.
    pub fn build_input<F>(&self, payload_map: FeatureMap<F>) -> (input: Input<F>)
        ensures
            is_input_of(payload_map@, input),
    {
        let features = payload_map.to_features();
        let mut examples: Vec<Example<F>> = Vec::new();
        examples.push(Example { features });
        Input { example_list: ExampleList { examples } }
    }

    /// The request that asks the model described to classify the payloads.
    pub fn classify<F>(
        &self,
        model_name: ModelDescription<&str>,
        payload_map: FeatureMap<F>,
    ) -> (request: ClassificationRequest<F>)
        ensures
            request.model_spec@ == self@.model_spec(model_name.name@, model_name.version),
            is_input_of(payload_map@, request.input),
    {
        ClassificationRequest {
            model_spec: self.build_model_spec(model_name),
            input: self.build_input(payload_map),
        }
    }

    /// The request that asks the model described for a prediction from a
    /// decoded image: the tensor of the image under `preprocessing_fn`, as the
    /// only input, under the name `input`.
    pub fn predict_request<T: From<u8>, M: Fn(T) -> T>(
        &self,
        image: &DecodedImage,
        model_description: ModelDescription<&str>,
        preprocessing_fn: M,
    ) -> (request: PredictRequest<T>)
        requires
            accepts_samples(image@, preprocessing_fn),
        ensures
            request.model_spec@ == self@.model_spec(
                model_description.name@,
                model_description.version,
            ),
            is_image_input(image@, preprocessing_fn, request.inputs@),
    {
        let tensor = build_tensor(image, preprocessing_fn);
        let mut inputs = FieldMap::new();
        inputs.insert("input", tensor);
        assert(inputs@.dom() =~= set!["input"@]);
        PredictRequest { model_spec: self.build_model_spec(model_description), inputs }
    }

    /// The request that asks the model described for a prediction from an
    /// image, whatever it is had from.
    ///
    /// Where no decoded image can be had the error is handed on and there is
    /// no request. Otherwise the request is that of `predict_request` for the
    /// decoded image.
    pub fn predict_with_preprocessing<I: Image, T: From<u8>, M: Fn(T) -> T>(
        &self,
        img: I,
        model_description: ModelDescription<&str>,
        preprocessing_fn: M,
    ) -> (request: Result<PredictRequest<T>, ServingError>)
        requires
            forall|raw: T| call_requires(preprocessing_fn, (raw,)),
        ensures
            match request {
                Ok(request) => exists|image: DecodedImage|
                    {
                        &&& call_ensures(I::to_image, (&img,), Ok(image))
                        &&& request.model_spec@ == self@.model_spec(
                            model_description.name@,
                            model_description.version,
                        )
                        &&& is_image_input(image@, preprocessing_fn, request.inputs@)
                    },
                Err(error) => call_ensures(I::to_image, (&img,), Err(error)),
            },
    {
        match img.to_image() {
            Ok(image) => Ok(self.predict_request(&image, model_description, preprocessing_fn)),
            Err(error) => Err(error),
        }
    }
}

/// A signature name given to the builder is the one that the model spec of
/// every request of the client carries; where none was given, that is
/// `serving_default`.
pub proof fn signature_name_reaches_requests<C>(
    builder: BuilderView,
    channel: C,
    model: Seq<char>,
    version: Option<i64>,
)
    requires
        builder.hostname is Some,
        builder.port is Some,
    ensures
        builder.resolved() is Ok,
        builder.resolved().unwrap().connected(channel).model_spec(model, version).signature_name
            == match builder.signature_name {
            Some(name) => name,
            None => default_signature_name(),
        },
{
}

/// The address tells the port: for one hostname, different ports give
/// different addresses.
pub proof fn address_tells_ports_apart(hostname: Seq<char>, port: u16, other_port: u16)
    requires
        endpoint_address(hostname, port) == endpoint_address(hostname, other_port),
    ensures
        port == other_port,
{
    let prefix = "http://"@ + hostname + ":"@;
    let address = endpoint_address(hostname, port);
    let other_address = endpoint_address(hostname, other_port);
    assert(address.subrange(prefix.len() as int, address.len() as int) =~= decimal(port as nat));
    assert(other_address.subrange(prefix.len() as int, other_address.len() as int) =~= decimal(
        other_port as nat,
    ));
    decimal_reads_back(port as nat);
    decimal_reads_back(other_port as nat);
}

/// A builder without a hostname resolves to no endpoint, whatever else is
/// set; one with a hostname and without a port resolves to none either.
pub proof fn missing_field_resolves_to_no_endpoint(builder: BuilderView)
    ensures
        builder.hostname is None ==> builder.resolved() == Err::<EndpointView, ConfigError>(
            ConfigError::MissingHostname,
        ),
        builder.hostname is Some && builder.port is None ==> builder.resolved() == Err::<
            EndpointView,
            ConfigError,
        >(ConfigError::MissingPort),
        builder.hostname is Some && builder.port is Some ==> builder.resolved() is Ok,
{
}

} // verus!
