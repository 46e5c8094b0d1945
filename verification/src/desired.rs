use vstd::prelude::*;
use vstd::string::StringExecFns;

verus! {

/// The digit character for a value below ten.
pub open spec fn digit_char(d: nat) -> char {
    if d == 0 {
        '0'
    } else if d == 1 {
        '1'
    } else if d == 2 {
        '2'
    } else if d == 3 {
        '3'
    } else if d == 4 {
        '4'
    } else if d == 5 {
        '5'
    } else if d == 6 {
        '6'
    } else if d == 7 {
        '7'
    } else if d == 8 {
        '8'
    } else {
        '9'
    }
}

/// The decimal digits of `n`, most significant first, with no leading zeros
/// (a single `'0'` for zero itself).
pub open spec fn decimal_digits(n: nat) -> Seq<char>
    decreases n,
{
    if n < 10 {
        seq![digit_char(n)]
    } else {
        decimal_digits(n / 10) + seq![digit_char(n % 10)]
    }
}

/// The one-character string for a single decimal digit.
fn digit_str(d: u16) -> (r: &'static str)
    requires
        d < 10,
    ensures
        r@ == seq![digit_char(d as nat)],
{
    let r: &'static str = match d {
        0 => "0",
        1 => "1",
        2 => "2",
        3 => "3",
        4 => "4",
        5 => "5",
        6 => "6",
        7 => "7",
        8 => "8",
        _ => "9",
    };
    proof {
        reveal_strlit("0");
        reveal_strlit("1");
        reveal_strlit("2");
        reveal_strlit("3");
        reveal_strlit("4");
        reveal_strlit("5");
        reveal_strlit("6");
        reveal_strlit("7");
        reveal_strlit("8");
        reveal_strlit("9");
        assert(r@ =~= seq![digit_char(d as nat)]);
    }
    r
}

/// Renders `n` in decimal.
pub fn decimal_string(n: u16) -> (r: String)
    ensures
        r@ == decimal_digits(n as nat),
    decreases n,
{
    if n < 10 {
        String::from_str(digit_str(n))
    } else {
        let mut s: String = decimal_string(n / 10);
        s.append(digit_str(n % 10));
        s
    }
}

/// The fully qualified image reference for a service name and a version.
pub fn image_reference(name: &str, version: &str) -> (r: String)
    ensures
        r@ == name@ + ":"@ + version@,
{
    let mut s: String = String::from_str(name);
    s.append(":");
    s.append(version);
    s
}

/// What a container should look like after a successful `run`: the image it
/// must run and the port it must expose. Derived once per reconciliation
/// from configuration and never mutated afterwards.
#[derive(Clone, Debug, PartialEq, Eq)]
pub struct DesiredSpec {
    /// The fully qualified image reference, `name:version`.
    pub image_reference: String,
    /// The port the container exposes.
    pub exposed_port: u16,
    /// The host port the exposed port is bound to, on all host interfaces.
    pub host_bind_port: u16,
}

/// A rejected configuration input.
#[derive(Clone, Copy, Debug, PartialEq, Eq, Structural)]
pub enum ConfigError {
    EmptyName,
    EmptyVersion,
}

/// Builds the desired spec for a named service from its configured version
/// and port, binding the container's port to the same port on the host.
/// An empty name or version is rejected at construction time.
pub fn build_desired(name: &str, version: &str, port: u16) -> (r: Result<
    DesiredSpec,
    ConfigError,
>)
    ensures
        name@.len() == 0 ==> r == Result::<DesiredSpec, ConfigError>::Err(
            ConfigError::EmptyName,
        ),
        name@.len() > 0 && version@.len() == 0 ==> r == Result::<DesiredSpec, ConfigError>::Err(
            ConfigError::EmptyVersion,
        ),
        name@.len() > 0 && version@.len() > 0 ==> (r matches Ok(d) && d.image_reference@ == name@
            + ":"@ + version@ && d.exposed_port == port && d.host_bind_port == port),
{
    if name.unicode_len() == 0 {
        Err(ConfigError::EmptyName)
    } else if version.unicode_len() == 0 {
        Err(ConfigError::EmptyVersion)
    } else {
        Ok(
            DesiredSpec {
                image_reference: image_reference(name, version),
                exposed_port: port,
                host_bind_port: port,
            },
        )
    }
}

/// The port-exposure descriptor for a desired spec, in the runtime's wire
/// vocabulary: the exposed port as a `port/tcp` key, and the host port it is
/// bound to as decimal text. No host address is named, which binds the port
/// on all host interfaces.
#[derive(Clone, Debug, PartialEq, Eq)]
pub struct Exposure {
    pub container_port_key: String,
    pub host_port_text: String,
}

/// Renders the port exposure of a desired spec in the runtime's wire
/// vocabulary.
pub fn exposure(d: &DesiredSpec) -> (r: Exposure)
    ensures
        r.container_port_key@ == decimal_digits(d.exposed_port as nat) + "/tcp"@,
        r.host_port_text@ == decimal_digits(d.host_bind_port as nat),
{
    let key: String = decimal_string(d.exposed_port).concat("/tcp");
    let host: String = decimal_string(d.host_bind_port);
    Exposure { container_port_key: key, host_port_text: host }
}

} // verus!
