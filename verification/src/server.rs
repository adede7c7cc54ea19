use vstd::prelude::*;

verus! {

/// Configures a server before it is built.
pub struct RfbServerBuilder {
    host: String,
    port: u16,
    width: u16,
    height: u16,
    depth: u8,
}

/// A configured server: the framebuffer size and colour depth it was built with.
pub struct RfbServer {
    width: u16,
    height: u16,
    depth: u8,
}

/// The mathematical value of an [`RfbServerBuilder`].
pub struct BuilderModel {
    pub host: Seq<char>,
    pub port: u16,
    pub width: u16,
    pub height: u16,
    pub depth: u8,
}

/// The mathematical value of an [`RfbServer`].
pub struct ServerModel {
    pub width: u16,
    pub height: u16,
    pub depth: u8,
}

impl View for RfbServerBuilder {
    type V = BuilderModel;

    closed spec fn view(&self) -> BuilderModel {
        BuilderModel {
            host: self.host@,
            port: self.port,
            width: self.width,
            height: self.height,
            depth: self.depth,
        }
    }
}

impl View for RfbServer {
    type V = ServerModel;

    closed spec fn view(&self) -> ServerModel {
        ServerModel { width: self.width, height: self.height, depth: self.depth }
    }
}

/// The configuration a fresh builder starts from: every interface, port 0,
/// 640 by 480 pixels at 32 bits per pixel.
pub open spec fn default_builder(host: Seq<char>) -> BuilderModel {
    BuilderModel { host, port: 0, width: 640, height: 480, depth: 32 }
}

/// `b` with its port set to `port`.
pub open spec fn with_port(b: BuilderModel, port: u16) -> BuilderModel {
    BuilderModel { port, ..b }
}

/// The server that `b` builds: its size and depth; host and port do not carry over.
pub open spec fn built(b: BuilderModel) -> ServerModel {
    ServerModel { width: b.width, height: b.height, depth: b.depth }
}

impl RfbServerBuilder {
    /// A builder with the default configuration, listening on "0.0.0.0".
    pub fn new() -> (b: Self)
        ensures
            b@ == default_builder("0.0.0.0"@),
    {
        RfbServerBuilder {
            host: "0.0.0.0".to_owned(),
            port: 0,
            width: 640,
            height: 480,
            depth: 32,
        }
    }

    /// Sets the port and hands the builder back.
    pub fn port(self, port: u16) -> (b: Self)
        ensures
            b@ == with_port(self@, port),
    {
        RfbServerBuilder { port, ..self }
    }

    /// Builds the server from the configured size and depth.
    pub fn build(self) -> (s: RfbServer)
        ensures
            s@ == built(self@),
    {
        RfbServer::new(self.width, self.height, self.depth)
    }

    /// The host the builder was configured with.
    pub fn host(&self) -> (h: &str)
        ensures
            h@ == self@.host,
    {
        self.host.as_str()
    }

    /// The port the builder was configured with.
    pub fn configured_port(&self) -> (p: u16)
        ensures
            p == self@.port,
    {
        self.port
    }
}

impl RfbServer {
    /// A server with the given framebuffer size and colour depth.
    pub fn new(width: u16, height: u16, depth: u8) -> (s: Self)
        ensures
            s@ == (ServerModel { width, height, depth }),
    {
        RfbServer { width, height, depth }
    }

    /// The configured framebuffer width.
    pub fn width(&self) -> (w: u16)
        ensures
            w == self@.width,
    {
        self.width
    }

    /// The configured framebuffer height.
    pub fn height(&self) -> (h: u16)
        ensures
            h == self@.height,
    {
        self.height
    }

    /// The configured colour depth.
    pub fn depth(&self) -> (d: u8)
        ensures
            d == self@.depth,
    {
        self.depth
    }
}

/// The port a builder is given has no effect on the server it builds.
pub proof fn lemma_port_does_not_change_server(b: BuilderModel, port: u16)
    ensures
        built(with_port(b, port)) == built(b),
{
}

/// Setting the port twice keeps only the second.
pub proof fn lemma_port_last_wins(b: BuilderModel, first: u16, second: u16)
    ensures
        with_port(with_port(b, first), second) == with_port(b, second),
{
}

} // verus!
