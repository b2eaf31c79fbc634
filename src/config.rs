use vstd::prelude::*;

verus! {

/// What one measurement runs against, and how.
pub struct MeasurementConfig {
    /// Prefer IPv6.
    pub ipv6: bool,
    /// Port, or range of ports, of the server.
    pub ports: Option<String>,
    /// Measure the server sending to this host.
    pub reverse: bool,
    /// Measure with UDP rather than TCP.
    pub udp: bool,
    /// Target given with the client option.
    pub server_in_option: Option<String>,
    /// Target given as a bare argument, or entered by hand.
    pub server_in_cmd: Option<String>,
}

pub open spec fn opt_view(o: Option<String>) -> Option<Seq<char>> {
    match o {
        Some(s) => Some(s@),
        None => None,
    }
}

/// A configuration with no target and no flags.
pub open spec fn is_cleared(c: MeasurementConfig) -> bool {
    &&& !c.ipv6
    &&& c.ports is None
    &&& !c.reverse
    &&& !c.udp
    &&& c.server_in_option is None
    &&& c.server_in_cmd is None
}

impl MeasurementConfig {
    /// The target: the one given with the client option first, else the bare one.
    pub open spec fn server_spec(&self) -> Option<Seq<char>> {
        if self.server_in_option is Some {
            opt_view(self.server_in_option)
        } else {
            opt_view(self.server_in_cmd)
        }
    }

    /// The ports, or an empty text when none are set.
    pub open spec fn ports_spec(&self) -> Seq<char> {
        match self.ports {
            Some(p) => p@,
            None => Seq::<char>::empty(),
        }
    }

    /// A one-line summary: the target (or a note that there is none), then the flags that are set.
    pub open spec fn friendly_spec(&self) -> Seq<char> {
        (match self.server_spec() {
            Some(s) => s,
            None => "(server not specified)"@,
        }) + (if self.ipv6 {
            " IPv6"@
        } else {
            Seq::<char>::empty()
        }) + (if self.ports is Some {
            " ports "@ + self.ports_spec()
        } else {
            Seq::<char>::empty()
        }) + (if self.reverse {
            " reverse"@
        } else {
            Seq::<char>::empty()
        }) + (if self.udp {
            " udp"@
        } else {
            Seq::<char>::empty()
        })
    }

    /// The tool's arguments for target `server`: line flushing, one-second
    /// reports, no time limit and megabit output, then the flags that are set
    /// (IPv6, ports, reverse, UDP), then the target.
    pub open spec fn args_spec(&self, server: Seq<char>) -> Seq<Seq<char>> {
        seq!["--forceflush"@, "--interval"@, "1"@, "--time"@, "0"@, "--format"@, "m"@] + (if self.ipv6 {
            seq!["-6"@]
        } else {
            Seq::<Seq<char>>::empty()
        }) + (if self.ports is Some {
            seq!["-p"@, self.ports_spec()]
        } else {
            Seq::<Seq<char>>::empty()
        }) + (if self.reverse {
            seq!["-R"@]
        } else {
            Seq::<Seq<char>>::empty()
        }) + (if self.udp {
            seq!["-u"@]
        } else {
            Seq::<Seq<char>>::empty()
        }) + seq!["--client"@, server]
    }

    /// A configuration with no target and no flags.
    pub fn new() -> (r: MeasurementConfig)
        ensures
            is_cleared(r),
    {
        MeasurementConfig {
            ipv6: false,
            ports: None,
            reverse: false,
            udp: false,
            server_in_option: None,
            server_in_cmd: None,
        }
    }

    /// Drops the target and every flag.
    pub fn clear(&mut self)
        ensures
            is_cleared(*final(self)),
    {
        self.ipv6 = false;
        self.ports = None;
        self.reverse = false;
        self.udp = false;
        self.server_in_option = None;
        self.server_in_cmd = None;
    }

    /// Makes `server` the only setting: every flag is dropped.
    pub fn select_server(&mut self, server: String)
        ensures
            !final(self).ipv6 && final(self).ports is None && !final(self).reverse && !final(self).udp,
            final(self).server_in_option is None,
            opt_view(final(self).server_in_cmd) == Some(server@),
    {
        self.clear();
        self.server_in_cmd = Some(server);
    }

    pub fn get_ports(&self) -> (r: String)
        ensures
            r@ == self.ports_spec(),
    {
        match &self.ports {
            Some(p) => p.clone(),
            None => String::new(),
        }
    }

    pub fn get_server(&self) -> (r: Option<String>)
        ensures
            opt_view(r) == self.server_spec(),
    {
        match &self.server_in_option {
            Some(s) => Some(s.clone()),
            None => match &self.server_in_cmd {
                Some(s) => Some(s.clone()),
                None => None,
            },
        }
    }

    /// The target, or an empty text when there is none.
    pub fn get_server_as_string(&self) -> (r: String)
        ensures
            r@ == (match self.server_spec() {
                Some(s) => s,
                None => Seq::<char>::empty(),
            }),
    {
        match self.get_server() {
            Some(s) => s,
            None => String::new(),
        }
    }

    pub fn friendly(&self) -> (r: String)
        ensures
            r@ == self.friendly_spec(),
    {
        let mut out = match self.get_server() {
            Some(s) => s,
            None => String::from_str("(server not specified)"),
        };
        if self.ipv6 {
            out.append(" IPv6");
        }
        if self.ports.is_some() {
            out.append(" ports ");
            let p = self.get_ports();
            out.append(p.as_str());
        }
        if self.reverse {
            out.append(" reverse");
        }
        if self.udp {
            out.append(" udp");
        }
        assert(out@ =~= self.friendly_spec());
        out
    }

    /// The tool's argument list, or `None` when no target is set (nothing is
    /// then to be started).
    pub fn command_args(&self) -> (r: Option<Vec<String>>)
        ensures
            r is None <==> self.server_spec() is None,
            r matches Some(v) ==> v@.map_values(|s: String| s@) == self.args_spec(
                self.server_spec().unwrap(),
            ),
    {
        let server = match self.get_server() {
            Some(s) => s,
            None => return None,
        };
        let mut v: Vec<String> = Vec::new();
        v.push(String::from_str("--forceflush"));
        v.push(String::from_str("--interval"));
        v.push(String::from_str("1"));
        v.push(String::from_str("--time"));
        v.push(String::from_str("0"));
        v.push(String::from_str("--format"));
        v.push(String::from_str("m"));
        if self.ipv6 {
            v.push(String::from_str("-6"));
        }
        if self.ports.is_some() {
            v.push(String::from_str("-p"));
            v.push(self.get_ports());
        }
        if self.reverse {
            v.push(String::from_str("-R"));
        }
        if self.udp {
            v.push(String::from_str("-u"));
        }
        v.push(String::from_str("--client"));
        v.push(server);
        assert(v@.map_values(|s: String| s@) =~= self.args_spec(self.server_spec().unwrap()));
        Some(v)
    }
}

} // verus!
