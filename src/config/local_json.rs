use vstd::prelude::*;

verus! {

/// Traffic-mirroring settings of the local snapshot.
#[derive(Clone)]
pub struct LocalConfigMirror {
    pub _enable: bool,
    pub _interface: String,
}

/// Remote adaptation-service settings of the local snapshot.
#[derive(Clone)]
pub struct LocalConfigIcapRemote {
    pub _enable: bool,
    pub _ip: String,
    pub _port: u16,
}

/// The local network-topology snapshot.
#[derive(Clone)]
pub struct LocalJson {
    pub _mirror: LocalConfigMirror,
    pub _icap_remote: LocalConfigIcapRemote,
    /// How many workers to run.
    pub thread_num: u16,
}

/// The adaptation-service port when the snapshot names none.
pub const DEFAULT_ICAP_PORT: u64 = 1344;

/// The worker count when the snapshot names none.
pub const DEFAULT_THREAD_NUM: u64 = 1;

impl LocalJson {
    /// Builds the snapshot from the values found in the local configuration document,
    /// `None` standing for a value that is absent or of another type: flags default to
    /// false, text to empty, the port to 1344 and the worker count to 1; the two numbers
    /// keep their low 16 bits.
    pub fn from_fields(
        mirror_enable: Option<bool>,
        mirror_interface: Option<String>,
        icap_enable: Option<bool>,
        icap_ip: Option<String>,
        icap_port: Option<u64>,
        thread_cnt: Option<u64>,
    ) -> (r: LocalJson)
        ensures
            r._mirror._enable == (mirror_enable == Some(true)),
            r._mirror._interface@ == match mirror_interface {
                Some(s) => s@,
                None => Seq::<char>::empty(),
            },
            r._icap_remote._enable == (icap_enable == Some(true)),
            r._icap_remote._ip@ == match icap_ip {
                Some(s) => s@,
                None => Seq::<char>::empty(),
            },
            r._icap_remote._port == match icap_port {
                Some(p) => p % 0x10000,
                None => DEFAULT_ICAP_PORT,
            },
            r.thread_num == match thread_cnt {
                Some(n) => n % 0x10000,
                None => DEFAULT_THREAD_NUM,
            },
    {
        let port: u64 = match icap_port {
            Some(p) => p,
            None => DEFAULT_ICAP_PORT,
        };
        let threads: u64 = match thread_cnt {
            Some(n) => n,
            None => DEFAULT_THREAD_NUM,
        };
        LocalJson {
            _mirror: LocalConfigMirror {
                _enable: match mirror_enable {
                    Some(b) => b,
                    None => false,
                },
                _interface: match mirror_interface {
                    Some(s) => s,
                    None => String::new(),
                },
            },
            _icap_remote: LocalConfigIcapRemote {
                _enable: match icap_enable {
                    Some(b) => b,
                    None => false,
                },
                _ip: match icap_ip {
                    Some(s) => s,
                    None => String::new(),
                },
                _port: (port % 0x10000) as u16,
            },
            thread_num: (threads % 0x10000) as u16,
        }
    }
}

} // verus!
