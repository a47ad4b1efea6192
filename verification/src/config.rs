//! The configuration that every component reads and none changes.
use vstd::prelude::*;
use vstd::string::StringSliceAdditionalSpecFns;
use crate::bounded::{
    network_name_from, network_name_str, network_name_text, network_secret_from,
    network_secret_str, network_secret_text,
};
use crate::limits::{IDENTIFIER_CAPACITY, NETWORK_NAME_CAPACITY, NETWORK_SECRET_CAPACITY};
use crate::port::{parse_port, port_of};

verus! {

/// Why a configuration was refused.
#[derive(Debug, Clone, Copy, PartialEq, Eq)]
pub enum ConfigError {
    /// The network name has more than 32 bytes.
    NetworkNameTooLong,
    /// The network secret has more than 64 bytes.
    NetworkSecretTooLong,
    /// The port text is no decimal number from 0 to 65535.
    MalformedPort,
    /// The client identifier has more bytes than a packet buffer.
    ClientIdTooLong,
    /// The user name has more bytes than a packet buffer.
    UsernameTooLong,
    /// The password has more bytes than a packet buffer.
    PasswordTooLong,
}

/// What a configuration holds.
pub struct ConfigView {
    pub network_name: Seq<char>,
    pub network_secret: Seq<char>,
    pub broker_host: Seq<char>,
    pub broker_port: u16,
    pub client_id: Seq<char>,
    pub username: Seq<char>,
    pub password: Seq<char>,
}

/// The first fault of the given texts, in the order network name, network
/// secret, port, client identifier, user name, password; none if all are
/// acceptable.
pub open spec fn config_fault(
    network_name: &str,
    network_secret: &str,
    broker_port: &str,
    client_id: &str,
    username: &str,
    password: &str,
) -> Option<ConfigError> {
    if network_name.spec_bytes().len() > NETWORK_NAME_CAPACITY {
        Some(ConfigError::NetworkNameTooLong)
    } else if network_secret.spec_bytes().len() > NETWORK_SECRET_CAPACITY {
        Some(ConfigError::NetworkSecretTooLong)
    } else if port_of(broker_port.spec_bytes()) is None {
        Some(ConfigError::MalformedPort)
    } else if client_id.spec_bytes().len() > IDENTIFIER_CAPACITY {
        Some(ConfigError::ClientIdTooLong)
    } else if username.spec_bytes().len() > IDENTIFIER_CAPACITY {
        Some(ConfigError::UsernameTooLong)
    } else if password.spec_bytes().len() > IDENTIFIER_CAPACITY {
        Some(ConfigError::PasswordTooLong)
    } else {
        None
    }
}

/// Network name and secret, broker host and port, client identity and login:
/// checked once, when the value is made, and read-only from then on.
#[derive(PartialEq, Eq)]
pub struct Config<'a> {
    network_name: heapless::String<32>,
    network_secret: heapless::String<64>,
    broker_host: &'a str,
    broker_port: u16,
    client_id: &'a str,
    username: &'a str,
    password: &'a str,
}

impl<'a> View for Config<'a> {
    type V = ConfigView;

    closed spec fn view(&self) -> ConfigView {
        ConfigView {
            network_name: network_name_text(self.network_name),
            network_secret: network_secret_text(self.network_secret),
            broker_host: self.broker_host@,
            broker_port: self.broker_port,
            client_id: self.client_id@,
            username: self.username@,
            password: self.password@,
        }
    }
}

impl<'a> Config<'a> {
    /// The host name of the broker, as the text that was handed in.
    pub closed spec fn host_text(&self) -> &'a str {
        self.broker_host
    }

    /// The text of the host name is the host name of the view.
    pub proof fn lemma_host_text(&self)
        ensures
            self.host_text()@ == self@.broker_host,
    {
    }

    /// Checks the texts and keeps them. The port is read from `broker_port`
    /// as a decimal number. A text that does not fit its capacity is refused
    /// whole, never shortened; of several faults the first is reported.
    pub fn new(
        network_name: &str,
        network_secret: &str,
        broker_host: &'a str,
        broker_port: &str,
        client_id: &'a str,
        username: &'a str,
        password: &'a str,
    ) -> (made: Result<Config<'a>, ConfigError>)
        ensures
            match made {
                Ok(config) => {
                    &&& config_fault(
                        network_name,
                        network_secret,
                        broker_port,
                        client_id,
                        username,
                        password,
                    ) is None
                    &&& config@.network_name == network_name@
                    &&& config@.network_secret == network_secret@
                    &&& config@.broker_host == broker_host@
                    &&& Some(config@.broker_port) == port_of(broker_port.spec_bytes())
                    &&& config@.client_id == client_id@
                    &&& config@.username == username@
                    &&& config@.password == password@
                },
                Err(fault) => config_fault(
                    network_name,
                    network_secret,
                    broker_port,
                    client_id,
                    username,
                    password,
                ) == Some(fault),
            },
    {
        let name = match network_name_from(network_name) {
            Ok(name) => name,
            Err(_) => {
                return Err(ConfigError::NetworkNameTooLong);
            },
        };
        let secret = match network_secret_from(network_secret) {
            Ok(secret) => secret,
            Err(_) => {
                return Err(ConfigError::NetworkSecretTooLong);
            },
        };
        let port: u16 = match parse_port(broker_port) {
            Some(port) => port,
            None => {
                return Err(ConfigError::MalformedPort);
            },
        };
        if client_id.as_bytes().len() > IDENTIFIER_CAPACITY {
            return Err(ConfigError::ClientIdTooLong);
        }
        if username.as_bytes().len() > IDENTIFIER_CAPACITY {
            return Err(ConfigError::UsernameTooLong);
        }
        if password.as_bytes().len() > IDENTIFIER_CAPACITY {
            return Err(ConfigError::PasswordTooLong);
        }
        Ok(
            Config {
                network_name: name,
                network_secret: secret,
                broker_host,
                broker_port: port,
                client_id,
                username,
                password,
            },
        )
    }

    /// Name of the wireless network.
    pub fn network_name(&self) -> (text: &str)
        ensures
            text@ == self@.network_name,
    {
        network_name_str(&self.network_name)
    }

    /// Secret of the wireless network.
    pub fn network_secret(&self) -> (text: &str)
        ensures
            text@ == self@.network_secret,
    {
        network_secret_str(&self.network_secret)
    }

    /// The network name in the form in which a link driver takes it.
    pub fn network_name_fixed(&self) -> (name: &heapless::String<32>)
        ensures
            network_name_text(*name) == self@.network_name,
    {
        &self.network_name
    }

    /// The network secret in the form in which a link driver takes it.
    pub fn network_secret_fixed(&self) -> (secret: &heapless::String<64>)
        ensures
            network_secret_text(*secret) == self@.network_secret,
    {
        &self.network_secret
    }

    /// Host name of the broker.
    pub fn broker_host(&self) -> (text: &'a str)
        ensures
            text == self.host_text(),
            text@ == self@.broker_host,
    {
        self.broker_host
    }

    /// Port of the broker.
    pub fn broker_port(&self) -> (port: u16)
        ensures
            port == self@.broker_port,
    {
        self.broker_port
    }

    /// Identifier under which the client presents itself.
    pub fn client_id(&self) -> (text: &'a str)
        ensures
            text@ == self@.client_id,
    {
        self.client_id
    }

    /// User name of the login.
    pub fn username(&self) -> (text: &'a str)
        ensures
            text@ == self@.username,
    {
        self.username
    }

    /// Password of the login.
    pub fn password(&self) -> (text: &'a str)
        ensures
            text@ == self@.password,
    {
        self.password
    }
}

} // verus!
