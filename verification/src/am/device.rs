//! A mobile device attached to the host.  Connecting consumes the device
//! handle, starting a session consumes the connection, so each teardown is
//! owed exactly once and the ladder cannot be climbed out of order.

use vstd::prelude::*;

use crate::os::{illegal_operation_status, Error, Status};

verus! {

/// How a device is attached.
#[derive(Clone, Copy, Debug, PartialEq, Eq, Structural)]
pub enum InterfaceConnectionType {
    Unknown,
    DirectUsb,
    IndirectWifi,
    Proxy,
}

/// An attached device: its connection handle, identifier, pairing state
/// and the value table its settings are read from.
pub struct Device {
    pub connection_id: u32,
    pub identifier: std::string::String,
    pub paired: bool,
    pub interface_type: InterfaceConnectionType,
    pub values: Vec<(std::string::String, std::string::String)>,
}

/// The value stored under a key, first match in table order.
pub open spec fn lookup_value(
    pairs: Seq<(std::string::String, std::string::String)>,
    key: Seq<char>,
) -> Option<std::string::String>
    decreases pairs.len(),
{
    if pairs.len() == 0 {
        None
    } else if pairs[0].0@ == key {
        Some(pairs[0].1)
    } else {
        lookup_value(pairs.skip(1), key)
    }
}

proof fn lemma_lookup_value_step(
    pairs: Seq<(std::string::String, std::string::String)>,
    i: int,
    key: Seq<char>,
)
    requires
        0 <= i < pairs.len(),
        pairs[i].0@ != key,
    ensures
        lookup_value(pairs.skip(i), key) == lookup_value(pairs.skip(i + 1), key),
{
    assert(pairs.skip(i)[0] == pairs[i]);
    assert(pairs.skip(i).skip(1) =~= pairs.skip(i + 1));
}

impl Device {
    /// The handle of the attachment.
    pub fn connection_id(&self) -> (r: u32)
        ensures
            r == self.connection_id,
    {
        self.connection_id
    }

    /// The unique identifier of the device.
    pub fn identifier(&self) -> (r: std::string::String)
        ensures
            r == self.identifier,
    {
        self.identifier.clone()
    }

    /// Whether the host is paired with the device.
    pub fn is_paired(&self) -> (r: bool)
        ensures
            r == self.paired,
    {
        self.paired
    }

    /// Pairs the host with the device; nothing else changes.
    pub fn pair(&mut self) -> (r: Result<(), Error>)
        ensures
            r == Ok::<(), Error>(()),
            final(self).paired,
            final(self).connection_id == old(self).connection_id,
            final(self).identifier == old(self).identifier,
            final(self).interface_type == old(self).interface_type,
            final(self).values@ == old(self).values@,
    {
        self.paired = true;
        Ok(())
    }

    /// Checks the pairing: succeeds exactly when paired, else reports the
    /// illegal-operation code.
    pub fn validate_pairing(&self) -> (r: Result<(), Error>)
        ensures
            self.paired ==> r == Ok::<(), Error>(()),
            !self.paired ==> r == Err::<(), Error>(Error(illegal_operation_status())),
    {
        if self.paired {
            Ok(())
        } else {
            Err(Error(Status::illegal_operation()))
        }
    }

    /// How the device is attached.
    pub fn interface_type(&self) -> (r: InterfaceConnectionType)
        ensures
            r == self.interface_type,
    {
        self.interface_type
    }

    /// Opens the connection, consuming the handle: the connection owns the
    /// device until it is dropped back out.
    pub fn connected(self) -> (r: Result<Connected, Error>)
        ensures
            r matches Ok(c) && c.device == self,
    {
        Ok(Connected { device: self })
    }
}

/// A connected device.  Disconnecting consumes it and hands the device
/// back, so the disconnect fires exactly once.
pub struct Connected {
    pub device: Device,
}

impl Connected {
    /// Reads one device setting; exactly one of domain and key is given,
    /// and this model holds plain keyed values only, so a domain read
    /// finds nothing.
    pub fn copy_value(
        &self,
        domain: Option<&std::string::String>,
        key: Option<&std::string::String>,
    ) -> (r: Option<std::string::String>)
        ensures
            match (domain, key) {
                (None, Some(k)) => r == lookup_value(self.device.values@, k@),
                _ => r is None,
            },
    {
        match (domain, key) {
            (None, Some(k)) => self.value(k),
            _ => None,
        }
    }

    /// Reads the values of one settings domain; this model holds none.
    pub fn domain_value(&self, domain: &std::string::String) -> (r: Option<std::string::String>)
        ensures
            r is None,
    {
        let _ = domain;
        None
    }

    /// The value stored under a key.
    #[verifier::loop_isolation(false)]
    pub fn value(&self, key: &std::string::String) -> (r: Option<std::string::String>)
        ensures
            r == lookup_value(self.device.values@, key@),
    {
        let pairs = &self.device.values;
        let ghost s = pairs@;
        let mut k: usize = 0;
        proof {
            assert(s.skip(0) =~= s);
        }
        while k < pairs.len()
            invariant
                k <= s.len(),
                s == pairs@,
                lookup_value(s, key@) == lookup_value(s.skip(k as int), key@),
            decreases s.len() - k,
        {
            proof {
                assert(s.skip(k as int)[0] == s[k as int]);
            }
            if pairs[k].0 == *key {
                proof {
                    assert(lookup_value(s.skip(k as int), key@) == Some(s[k as int].1));
                }
                return Some(pairs[k].1.clone());
            }
            proof {
                lemma_lookup_value_step(s, k as int, key@);
            }
            k += 1;
        }
        proof {
            assert(s.skip(k as int).len() == 0);
        }
        None
    }

    /// The device's human-readable name.
    pub fn name(&self) -> (r: Option<std::string::String>)
        ensures
            r == lookup_value(self.device.values@, "DeviceName"@),
    {
        self.value(&("DeviceName".to_owned()))
    }

    /// The processor architecture.
    pub fn cpu_arch(&self) -> (r: Option<std::string::String>)
        ensures
            r == lookup_value(self.device.values@, "CPUArchitecture"@),
    {
        self.value(&("CPUArchitecture".to_owned()))
    }

    /// The hardware model.
    pub fn hardware_model(&self) -> (r: Option<std::string::String>)
        ensures
            r == lookup_value(self.device.values@, "HardwareModel"@),
    {
        self.value(&("HardwareModel".to_owned()))
    }

    /// The product name; stored under the hardware model key.
    pub fn product_name(&self) -> (r: Option<std::string::String>)
        ensures
            r == lookup_value(self.device.values@, "HardwareModel"@),
    {
        self.value(&("HardwareModel".to_owned()))
    }

    /// The product type.
    pub fn product_type(&self) -> (r: Option<std::string::String>)
        ensures
            r == lookup_value(self.device.values@, "ProductType"@),
    {
        self.value(&("ProductType".to_owned()))
    }

    /// The product version.
    pub fn product_version(&self) -> (r: Option<std::string::String>)
        ensures
            r == lookup_value(self.device.values@, "ProductVersion"@),
    {
        self.value(&("ProductVersion".to_owned()))
    }

    /// Opens a session, consuming the connection: the session owns it
    /// until it is stopped back out.
    pub fn start_session(self) -> (r: Result<Session, Error>)
        ensures
            r matches Ok(s) && s.conn == self,
    {
        Ok(Session { conn: self })
    }

    /// Closes the connection exactly once and hands the device back.
    pub fn disconnect(self) -> (r: Device)
        ensures
            r == self.device,
    {
        self.device
    }
}

/// An open session on a connected device.  Stopping consumes it and hands
/// the connection back, so the stop fires exactly once.
pub struct Session {
    pub conn: Connected,
}

/// A started device service, named by what was asked for.
#[derive(Debug, PartialEq)]
pub struct Service {
    pub name: std::string::String,
}

impl Session {
    /// Starts the named service over the session.
    pub fn secure_start_service(&self, name: &std::string::String) -> (r: Result<Service, Error>)
        ensures
            r matches Ok(s) && s.name == *name,
    {
        Ok(Service { name: name.clone() })
    }

    /// Starts the debug server service.
    pub fn start_debug_server(&self) -> (r: Result<Service, Error>)
        ensures
            r matches Ok(s) && s.name@ == "com.apple.debugserver"@,
    {
        self.secure_start_service(&("com.apple.debugserver".to_owned()))
    }

    /// Stops the session exactly once and hands the connection back.
    pub fn stop(self) -> (r: Connected)
        ensures
            r == self.conn,
    {
        self.conn
    }
}

} // verus!
