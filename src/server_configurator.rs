//! Server configuration: database connection text and listening addresses.

use crate::text::decimal;
use crate::text::push_decimal;
use vstd::prelude::*;

verus! {

pub struct ServerConfiguration {
    pub database_name: String,
    pub database_admin_username: String,
    pub database_admin_password: String,
    pub database_url: String,
    pub database_password_pepper: String,
    pub server_address: String,
    pub authentication_server_port: u16,
    pub data_server_port: u16,
    pub bank_server_port: u16,
    pub chat_server_port: u16,
}

#[derive(PartialEq, Eq, Structural, Clone, Copy, Debug)]
pub enum ServerType {
    Authentication,
    Data,
    Bank,
    Chat,
}

impl ServerConfiguration {
    pub open spec fn port_of(&self, server_type: ServerType) -> u16 {
        match server_type {
            ServerType::Authentication => self.authentication_server_port,
            ServerType::Data => self.data_server_port,
            ServerType::Bank => self.bank_server_port,
            ServerType::Chat => self.chat_server_port,
        }
    }

    /// `postgres://<user>:<password>@<url>/<database>`.
    pub fn get_posgres_connection_url(&self) -> (r: String)
        ensures
            r@ == "postgres://"@ + self.database_admin_username@ + ":"@ + self.database_admin_password@ + "@"@
                + self.database_url@ + "/"@ + self.database_name@,
    {
        let mut url = String::from_str("postgres://");
        url.append(self.database_admin_username.as_str());
        url.append(":");
        url.append(self.database_admin_password.as_str());
        url.append("@");
        url.append(self.database_url.as_str());
        url.append("/");
        url.append(self.database_name.as_str());
        url
    }

    /// `<address>:<port>` of the given server, to be parsed as a socket address.
    pub fn socket_addr_text(&self, server_type: ServerType) -> (r: String)
        ensures
            r@ == self.server_address@ + ":"@ + decimal(self.port_of(server_type) as nat),
    {
        let port = match server_type {
            ServerType::Authentication => self.authentication_server_port,
            ServerType::Data => self.data_server_port,
            ServerType::Bank => self.bank_server_port,
            ServerType::Chat => self.chat_server_port,
        };
        let mut text = self.server_address.clone();
        text.append(":");
        push_decimal(&mut text, port as u32);
        text
    }
}

} // verus!
