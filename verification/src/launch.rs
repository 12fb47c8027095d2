//! How the browser process is started.

use vstd::prelude::*;
use vstd::string::*;

verus! {

/// The flags and arguments that one browser process is started with.
#[derive(Debug)]
pub struct LaunchPlan {
    /// Run without a window.
    pub headless: bool,
    /// Use GPU acceleration.
    pub gpu: bool,
    /// Run the renderer inside the sandbox.
    pub sandbox: bool,
    /// Further command-line arguments, in order.
    pub args: Vec<String>,
}

/// A launch plan as plain values.
pub struct LaunchModel {
    pub headless: bool,
    pub gpu: bool,
    pub sandbox: bool,
    pub args: Seq<Seq<char>>,
}

impl View for LaunchPlan {
    type V = LaunchModel;

    open spec fn view(&self) -> LaunchModel {
        LaunchModel {
            headless: self.headless,
            gpu: self.gpu,
            sandbox: self.sandbox,
            args: self.args.deep_view(),
        }
    }
}

/// The argument that keeps the browser silent.
pub open spec fn mute_argument() -> Seq<char> {
    "--mute-audio"@
}

/// The argument that routes the browser's traffic through the SOCKS
/// endpoint `endpoint`.
pub open spec fn proxy_argument(endpoint: Seq<char>) -> Seq<char> {
    "--proxy-server=socks5://"@ + endpoint
}

/// The argument that keeps the browser from loading images.
pub open spec fn images_argument() -> Seq<char> {
    "--disable-images"@
}

/// The arguments of a launch: audio off; then the proxy, if there is one;
/// then the image switch, if it is asked for.
pub open spec fn launch_arguments(proxy: Option<Seq<char>>, images_off: bool) -> Seq<Seq<char>> {
    let first = match proxy {
        Some(endpoint) => seq![mute_argument(), proxy_argument(endpoint)],
        None => seq![mute_argument()],
    };
    if images_off {
        first.push(images_argument())
    } else {
        first
    }
}

/// The launch that a configuration asks for: no window, no GPU, no sandbox,
/// and the arguments above.
pub open spec fn launch_model(proxy: Option<Seq<char>>, images_off: bool) -> LaunchModel {
    LaunchModel {
        headless: true,
        gpu: false,
        sandbox: false,
        args: launch_arguments(proxy, images_off),
    }
}

/// Plans the launch of the browser. `proxy` is the SOCKS endpoint to route
/// traffic through, if any; `images_off` asks for the image switch.
///
/// The sandbox is switched off on purpose, so that the browser also starts
/// where a sandbox cannot be had; the pages it renders are then held by
/// nothing but the browser itself.
pub fn launch_plan(proxy: Option<&str>, images_off: bool) -> (plan: LaunchPlan)
    ensures
        plan@ == launch_model(proxy.deep_view(), images_off),
{
    let mut args: Vec<String> = Vec::new();
    args.push(String::from_str("--mute-audio"));
    match proxy {
        Some(endpoint) => {
            let mut arg: String = String::from_str("--proxy-server=socks5://");
            arg.append(endpoint);
            args.push(arg);
        },
        None => {},
    }
    if images_off {
        args.push(String::from_str("--disable-images"));
    }
    assert(args.deep_view() =~= launch_arguments(proxy.deep_view(), images_off));
    LaunchPlan { headless: true, gpu: false, sandbox: false, args }
}

} // verus!
