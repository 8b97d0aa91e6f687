//! The server's configuration: listen address, port, and the directory
//! the spool files are created in.

use vstd::prelude::*;

verus! {

#[derive(Debug)]
pub struct Options {
    pub address: String,
    pub port: u16,
    pub temp_dir: String,
}

impl Options {
    pub fn new(address: String, port: u16, temp_dir: String) -> (o: Options)
        ensures
            o.address == address,
            o.port == port,
            o.temp_dir == temp_dir,
    {
        Options { address, port, temp_dir }
    }

    pub fn address(&self) -> (r: &str)
        ensures
            r@ == self.address@,
    {
        self.address.as_str()
    }

    pub fn port(&self) -> (r: u16)
        ensures
            r == self.port,
    {
        self.port
    }

    pub fn temp_dir(&self) -> (r: &str)
        ensures
            r@ == self.temp_dir@,
    {
        self.temp_dir.as_str()
    }
}

} // verus!
