//! Service registration and the handle to a live registration.

use vstd::prelude::*;

use crate::error::Error;
use crate::hostname::Hostname;
use crate::platform::Platform;
use crate::status::translate_status;
use crate::txt::TxtRecords;
use crate::txt::txt_views;

verus! {

/// One active service registration.
///
/// A value exists only in the fully-registered state: it records the
/// registration that was made — instance name, hostname, port and TXT
/// pairs. The platform adapter keeps the corresponding native
/// service-instance object and datagram socket as one co-owned unit until
/// it hands them out or begins another registration; a caller who takes
/// them should hold them exactly as long as this handle.
pub struct Service {
    instance_name: String,
    hostname: Option<Hostname>,
    port: u16,
    txt: TxtRecords,
}

impl Service {
    /// The instance name this registration was made under.
    pub closed spec fn instance_name_spec(&self) -> Seq<char> {
        self.instance_name@
    }

    /// The hostname this registration was made with, where one was given.
    pub closed spec fn hostname_spec(&self) -> Option<Hostname> {
        self.hostname
    }

    /// The port this registration was made for.
    pub closed spec fn port_spec(&self) -> u16 {
        self.port
    }

    /// The TXT pairs this registration carried, in insertion order.
    pub closed spec fn txt_spec(&self) -> Seq<(Seq<char>, Seq<char>)> {
        self.txt@
    }

    /// Registers a service.
    ///
    /// `instance_name` is usually something like
    /// `"instancename._http._tcp.local."`; it is opaque text forwarded to
    /// the platform verbatim, not parsed or validated here.
    ///
    /// The steps run in order, each platform failure short-circuiting to
    /// `Error::PlatformError`: create the service-instance descriptor,
    /// insert every TXT pair in input order, create a datagram socket,
    /// register over it and wait, then translate the resulting status code
    /// (see [`crate::status::status_outcome`]). On success the returned
    /// handle carries exactly the registration that was made.
    pub fn register<P: Platform>(
        platform: &mut P,
        instance_name: &String,
        hostname: Option<Hostname>,
        port: u16,
        txt: &Vec<(String, String)>,
    ) -> (r: Result<Service, Error>)
        ensures
            r matches Ok(s) ==> {
                &&& s.instance_name_spec() == instance_name@
                &&& s.hostname_spec() == hostname
                &&& s.port_spec() == port
                &&& s.txt_spec() == txt_views(txt@)
            },
    {
        match platform.create_instance(instance_name, &hostname, port) {
            Ok(()) => {},
            Err(d) => {
                return Err(Error::PlatformError(d));
            },
        }
        let mut records = TxtRecords::new();
        let mut i: usize = 0;
        while i < txt.len()
            invariant
                i <= txt.len(),
                records@ == txt_views(txt@.take(i as int)),
            decreases txt.len() - i,
        {
            match platform.insert_attribute(&txt[i].0, &txt[i].1) {
                Ok(()) => {},
                Err(d) => {
                    return Err(Error::PlatformError(d));
                },
            }
            records.insert(txt[i].0.clone(), txt[i].1.clone());
            proof {
                assert(txt_views(txt@.take(i + 1)) =~= txt_views(txt@.take(i as int)).push(
                    (txt@[i as int].0@, txt@[i as int].1@),
                ));
            }
            i = i + 1;
        }
        proof {
            assert(txt@.take(txt@.len() as int) =~= txt@);
        }
        match platform.create_socket() {
            Ok(()) => {},
            Err(d) => {
                return Err(Error::PlatformError(d));
            },
        }
        let code: i32 = match platform.register_instance() {
            Ok(code) => code,
            Err(d) => {
                return Err(Error::PlatformError(d));
            },
        };
        match translate_status(code) {
            Ok(()) => Ok(
                Service { instance_name: instance_name.clone(), hostname, port, txt: records },
            ),
            Err(e) => Err(e),
        }
    }
}

} // verus!
