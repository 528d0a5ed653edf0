use vstd::prelude::*;

use crate::path::FsPath;

verus! {

/// An IPv4 or IPv6 socket address.
#[derive(Debug)]
pub enum SocketAddress {
    V4 { octets: [u8; 4], port: u16 },
    V6 { segments: [u16; 8], port: u16, flowinfo: u32, scope_id: u32 },
}

/// The settings of a `Server`, with a custom context of type `C`.
#[derive(Debug)]
pub struct ServerContext<C> {
    /// The name of the server.
    pub name: String,
    /// The address the server binds to.
    pub addr: SocketAddress,
    /// The folder that website files are served from.
    pub site: FsPath,
    /// The file served for a request of a file that does not exist.
    pub not_found_file: FsPath,
    /// The custom context.
    pub custom: C,
}

/// A webserver that hosts the files of a site directory.
pub struct Server<C> {
    context: ServerContext<C>,
}

impl<C> Server<C> {
    /// The settings of this server.
    pub closed spec fn spec_context(self) -> ServerContext<C> {
        self.context
    }

    /// A server with the given name, address, site folder, not-found file and
    /// custom context.
    pub fn new_with_custom(
        name: String,
        addr: SocketAddress,
        site: FsPath,
        not_found_file: FsPath,
        custom: C,
    ) -> (server: Server<C>)
        ensures
            server.spec_context() == (ServerContext { name, addr, site, not_found_file, custom }),
    {
        Server { context: ServerContext { name, addr, site, not_found_file, custom } }
    }

    /// A server with the settings read from a config file, under the given name.
    pub fn with_loaded_context(name: String, loaded: ServerContext<C>) -> (server: Server<C>)
        ensures
            server.spec_context() == (ServerContext {
                name,
                addr: loaded.addr,
                site: loaded.site,
                not_found_file: loaded.not_found_file,
                custom: loaded.custom,
            }),
    {
        let mut context = loaded;
        context.name = name;
        Server { context }
    }

    /// The settings of this server.
    pub fn context(&self) -> (context: &ServerContext<C>)
        ensures
            *context == self.spec_context(),
    {
        &self.context
    }

    /// The settings of this server, taken out of it.
    pub fn into_context(self) -> (context: ServerContext<C>)
        ensures
            context == self.spec_context(),
    {
        self.context
    }
}

impl<C: Default> Server<C> {
    /// A server with the given name, address, site folder and not-found file, and
    /// the default custom context.
    pub fn new_with_default_custom(
        name: String,
        addr: SocketAddress,
        site: FsPath,
        not_found_file: FsPath,
    ) -> (server: Server<C>)
        ensures
            server.spec_context().name == name,
            server.spec_context().addr == addr,
            server.spec_context().site == site,
            server.spec_context().not_found_file == not_found_file,
            call_ensures(C::default, (), server.spec_context().custom),
    {
        Server {
            context: ServerContext { name, addr, site, not_found_file, custom: C::default() },
        }
    }
}

} // verus!
