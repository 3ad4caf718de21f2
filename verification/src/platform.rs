//! The platform interface a registration runs against.

use vstd::prelude::*;

use crate::hostname::Hostname;
use crate::txt::TxtRecords;

verus! {

/// The five platform service-discovery and socket operations one
/// registration needs, as an interface with pluggable implementations: a
/// real platform adapter lives with the host application, and
/// [`StubPlatform`] is an in-memory double.
///
/// The platform alone decides each operation's outcome, so no method
/// carries a contract: the registrar is verified to behave correctly
/// whatever an implementation returns. An `Err` carries the platform's
/// diagnostic text. An implementation holds the native objects of at most
/// one registration in flight: `create_instance` begins one, and the later
/// calls act on it.
pub trait Platform {
    /// Validates `text` as a hostname. `Ok` carries the canonical name the
    /// platform reports (empty where it reports none); `Err` carries the
    /// validation diagnostic.
    fn create_hostname(&mut self, text: &String) -> Result<String, String>;

    /// Creates the service-instance descriptor a registration starts from.
    fn create_instance(
        &mut self,
        instance_name: &String,
        hostname: &Option<Hostname>,
        port: u16,
    ) -> Result<(), String>;

    /// Inserts one key/value pair into the pending instance's
    /// text-attribute mapping.
    fn insert_attribute(&mut self, key: &String, value: &String) -> Result<(), String>;

    /// Creates the datagram socket the registration is issued over.
    fn create_socket(&mut self) -> Result<(), String>;

    /// Registers the pending instance over the socket, waiting until the
    /// platform confirms or rejects; `Ok` carries the resulting status code.
    fn register_instance(&mut self) -> Result<i32, String>;
}

/// An in-memory platform double.
///
/// It rejects the empty hostname and accepts every other one, reporting the
/// input text itself as the canonical name; it performs every setup step,
/// records attribute insertions in `attributes`, and answers the
/// registration with the scripted status code `status`.
pub struct StubPlatform {
    /// The status code `register_instance` answers with.
    pub status: i32,
    /// The text-attribute mapping as the stub has seen it inserted.
    pub attributes: TxtRecords,
}

impl StubPlatform {
    /// A stub whose registration answers with `status` and whose attribute
    /// mapping starts empty.
    pub fn with_status(status: i32) -> (r: StubPlatform)
        ensures
            r.status == status,
            r.attributes@ == Seq::<(Seq<char>, Seq<char>)>::empty(),
    {
        StubPlatform { status, attributes: TxtRecords::new() }
    }
}

impl Platform for StubPlatform {
    /// The stub rejects exactly the empty string and reports the input text
    /// itself as the canonical name; the scripted state is untouched.
    fn create_hostname(&mut self, text: &String) -> (r: Result<String, String>)
        ensures
            text@.len() == 0 ==> r is Err,
            text@.len() > 0 ==> (r matches Ok(c) && c@ == text@),
            final(self).status == old(self).status,
            final(self).attributes@ == old(self).attributes@,
    {
        if text.as_str().is_empty() {
            Err("hostname must not be empty".to_owned())
        } else {
            Ok(text.clone())
        }
    }

    /// The stub accepts every instance descriptor; the scripted state is
    /// untouched.
    fn create_instance(
        &mut self,
        _instance_name: &String,
        _hostname: &Option<Hostname>,
        _port: u16,
    ) -> (r: Result<(), String>)
        ensures
            r is Ok,
            final(self).status == old(self).status,
            final(self).attributes@ == old(self).attributes@,
    {
        Ok(())
    }

    /// The stub accepts every pair and records it in `attributes`.
    fn insert_attribute(&mut self, key: &String, value: &String) -> (r: Result<(), String>)
        ensures
            r is Ok,
            final(self).attributes@ == old(self).attributes@.push((key@, value@)),
            final(self).status == old(self).status,
    {
        self.attributes.insert(key.clone(), value.clone());
        Ok(())
    }

    /// The stub always has a socket to offer; the scripted state is
    /// untouched.
    fn create_socket(&mut self) -> (r: Result<(), String>)
        ensures
            r is Ok,
            final(self).status == old(self).status,
            final(self).attributes@ == old(self).attributes@,
    {
        Ok(())
    }

    /// The stub answers the registration with exactly the scripted status
    /// code.
    fn register_instance(&mut self) -> (r: Result<i32, String>)
        ensures
            r == Ok::<i32, String>(old(self).status),
            final(self).status == old(self).status,
            final(self).attributes@ == old(self).attributes@,
    {
        Ok(self.status)
    }
}

} // verus!
