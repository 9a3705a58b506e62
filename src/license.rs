//! License identifiers and the license summary shown to users.

use vstd::prelude::*;

use crate::output::{blue_underline, is_tty, painted};
use crate::text::{join3, owned, str_eq};

verus! {

/// The licenses a tool can declare.
#[derive(Debug, Clone, Copy, PartialEq, Eq)]
pub enum LicenseType {
    MIT,
    Apache2,
    CC0,
}

/// The upper-case form of a string.
pub uninterp spec fn upper_of(s: Seq<char>) -> Seq<char>;

/// Relies on `str::to_uppercase`: the result depends on the characters alone.
#[verifier::external_body]
fn uppercase(s: &str) -> (r: String)
    ensures
        r@ == upper_of(s@),
{
    s.to_uppercase()
}

/// The license that an upper-case name stands for.
pub open spec fn license_of_upper(u: Seq<char>) -> Option<LicenseType> {
    if u == "MIT"@ {
        Some(LicenseType::MIT)
    } else if u == "APACHE-2.0"@ || u == "APACHE2"@ || u == "APACHE"@ {
        Some(LicenseType::Apache2)
    } else if u == "CC0-1.0"@ || u == "CC0"@ {
        Some(LicenseType::CC0)
    } else {
        None
    }
}

/// The SPDX name of a license.
pub open spec fn name_of(l: LicenseType) -> Seq<char> {
    match l {
        LicenseType::MIT => "MIT"@,
        LicenseType::Apache2 => "Apache-2.0"@,
        LicenseType::CC0 => "CC0-1.0"@,
    }
}

impl LicenseType {
    /// The license named by an already upper-cased name.
    pub fn parse_upper(u: &str) -> (r: Option<LicenseType>)
        ensures
            r == license_of_upper(u@),
    {
        if str_eq(u, "MIT") {
            Some(LicenseType::MIT)
        } else if str_eq(u, "APACHE-2.0") || str_eq(u, "APACHE2") || str_eq(u, "APACHE") {
            Some(LicenseType::Apache2)
        } else if str_eq(u, "CC0-1.0") || str_eq(u, "CC0") {
            Some(LicenseType::CC0)
        } else {
            None
        }
    }

    /// The license named by `s`, in any letter case: `MIT`; `Apache-2.0`,
    /// `Apache2` or `Apache`; `CC0-1.0` or `CC0`.
    pub fn parse(s: &str) -> (r: Option<LicenseType>)
        ensures
            r == license_of_upper(upper_of(s@)),
    {
        let u = uppercase(s);
        LicenseType::parse_upper(u.as_str())
    }

    /// The SPDX name of this license.
    pub fn name(self) -> (r: &'static str)
        ensures
            r@ == name_of(self),
    {
        match self {
            LicenseType::MIT => "MIT",
            LicenseType::Apache2 => "Apache-2.0",
            LicenseType::CC0 => "CC0-1.0",
        }
    }
}

/// What a license allows and requires, and for MIT its full text.
pub open spec fn summary_of(l: LicenseType) -> Seq<char> {
    match l {
        LicenseType::MIT => "MIT License - A permissive license that allows:\n"@ +
            "• Commercial use\n"@ +
            "• Modification\n"@ +
            "• Distribution\n"@ +
            "• Private use\n"@ +
            "\n"@ +
            "Requires:\n"@ +
            "• License and copyright notice\n"@ +
            "\n"@ +
            "MIT License\n"@ +
            "\n"@ +
            "Permission is hereby granted, free of charge, to any person obtaining a copy\n"@ +
            "of this software and associated documentation files (the \"Software\"), to deal\n"@ +
            "in the Software without restriction, including without limitation the rights\n"@ +
            "to use, copy, modify, merge, publish, distribute, sublicense, and/or sell\n"@ +
            "copies of the Software, and to permit persons to whom the Software is\n"@ +
            "furnished to do so, subject to the following conditions:\n"@ +
            "\n"@ +
            "The above copyright notice and this permission notice shall be included in all\n"@ +
            "copies or substantial portions of the Software.\n"@ +
            "\n"@ +
            "THE SOFTWARE IS PROVIDED \"AS IS\", WITHOUT WARRANTY OF ANY KIND, EXPRESS OR\n"@ +
            "IMPLIED, INCLUDING BUT NOT LIMITED TO THE WARRANTIES OF MERCHANTABILITY,\n"@ +
            "FITNESS FOR A PARTICULAR PURPOSE AND NONINFRINGEMENT. IN NO EVENT SHALL THE\n"@ +
            "AUTHORS OR COPYRIGHT HOLDERS BE LIABLE FOR ANY CLAIM, DAMAGES OR OTHER\n"@ +
            "LIABILITY, WHETHER IN AN ACTION OF CONTRACT, TORT OR OTHERWISE, ARISING FROM,\n"@ +
            "OUT OF OR IN CONNECTION WITH THE SOFTWARE OR THE USE OR OTHER DEALINGS IN THE\n"@ +
            "SOFTWARE.\n"@,
        LicenseType::Apache2 => "Apache License 2.0 - A permissive license that allows:\n"@ +
            "• Commercial use\n"@ +
            "• Modification\n"@ +
            "• Distribution\n"@ +
            "• Patent use\n"@ +
            "• Private use\n"@ +
            "\n"@ +
            "Requires:\n"@ +
            "• License and copyright notice\n"@ +
            "• State changes\n"@,
        LicenseType::CC0 => "Creative Commons CC0 1.0 Universal - Public domain dedication:\n"@ +
            "• No rights reserved\n"@ +
            "• Can be used for any purpose\n"@ +
            "• No attribution required\n"@,
    }
}

/// The plain wording of the pointer to the full license text.
pub open spec fn license_pointer() -> Seq<char> {
    "LICENSE file in project root"@
}

/// The license statement for `tool`, ending with a pointer `link` to the full text.
pub open spec fn license_text_of(tool: Seq<char>, l: LicenseType, link: Seq<char>) -> Seq<char> {
    tool + " is licensed under "@ + name_of(l) + "\n\n"@ + summary_of(l) + "\n"@
        + "For full license text, see: "@ + link + "\n"@
}

fn summary(l: LicenseType) -> (r: String)
    ensures
        r@ == summary_of(l),
{
    match l {
        LicenseType::MIT => {
            let mut r = String::from_str("MIT License - A permissive license that allows:\n");
            r.append("• Commercial use\n");
            r.append("• Modification\n");
            r.append("• Distribution\n");
            r.append("• Private use\n");
            r.append("\n");
            r.append("Requires:\n");
            r.append("• License and copyright notice\n");
            r.append("\n");
            r.append("MIT License\n");
            r.append("\n");
            r.append("Permission is hereby granted, free of charge, to any person obtaining a copy\n");
            r.append("of this software and associated documentation files (the \"Software\"), to deal\n");
            r.append("in the Software without restriction, including without limitation the rights\n");
            r.append("to use, copy, modify, merge, publish, distribute, sublicense, and/or sell\n");
            r.append("copies of the Software, and to permit persons to whom the Software is\n");
            r.append("furnished to do so, subject to the following conditions:\n");
            r.append("\n");
            r.append("The above copyright notice and this permission notice shall be included in all\n");
            r.append("copies or substantial portions of the Software.\n");
            r.append("\n");
            r.append("THE SOFTWARE IS PROVIDED \"AS IS\", WITHOUT WARRANTY OF ANY KIND, EXPRESS OR\n");
            r.append("IMPLIED, INCLUDING BUT NOT LIMITED TO THE WARRANTIES OF MERCHANTABILITY,\n");
            r.append("FITNESS FOR A PARTICULAR PURPOSE AND NONINFRINGEMENT. IN NO EVENT SHALL THE\n");
            r.append("AUTHORS OR COPYRIGHT HOLDERS BE LIABLE FOR ANY CLAIM, DAMAGES OR OTHER\n");
            r.append("LIABILITY, WHETHER IN AN ACTION OF CONTRACT, TORT OR OTHERWISE, ARISING FROM,\n");
            r.append("OUT OF OR IN CONNECTION WITH THE SOFTWARE OR THE USE OR OTHER DEALINGS IN THE\n");
            r.append("SOFTWARE.\n");
            r
        },
        LicenseType::Apache2 => {
            let mut r = String::from_str("Apache License 2.0 - A permissive license that allows:\n");
            r.append("• Commercial use\n");
            r.append("• Modification\n");
            r.append("• Distribution\n");
            r.append("• Patent use\n");
            r.append("• Private use\n");
            r.append("\n");
            r.append("Requires:\n");
            r.append("• License and copyright notice\n");
            r.append("• State changes\n");
            r
        },
        LicenseType::CC0 => {
            let mut r = String::from_str("Creative Commons CC0 1.0 Universal - Public domain dedication:\n");
            r.append("• No rights reserved\n");
            r.append("• Can be used for any purpose\n");
            r.append("• No attribution required\n");
            r
        },
    }
}

/// The license statement for `tool_name`, with `link` as the pointer to the
/// full text.
pub fn license_text(tool_name: &str, license: LicenseType, link: &str) -> (r: String)
    ensures
        r@ == license_text_of(tool_name@, license, link@),
{
    let mut r = join3(tool_name, " is licensed under ", license.name());
    r.append("\n\n");
    let body = summary(license);
    r.append(body.as_str());
    r.append("\n");
    r.append("For full license text, see: ");
    r.append(link);
    r.append("\n");
    r
}

/// The license statement for `tool_name`: the pointer to the full text is
/// plain for a pipe or file, and coloured for a terminal.
pub fn format_license(tool_name: &str, license: LicenseType, tty: bool) -> (r: String)
    ensures
        !tty ==> r@ == license_text_of(tool_name@, license, license_pointer()),
        tty ==> exists|link: Seq<char>|
            painted(link, license_pointer()) && r@ == license_text_of(tool_name@, license, link),
{
    let pointer = "LICENSE file in project root";
    let link = if tty {
        blue_underline(pointer)
    } else {
        owned(pointer)
    };
    let r = license_text(tool_name, license, link.as_str());
    assert(painted(link@, license_pointer()));
    r
}

/// The license statement for `tool_name`; the pointer to the full text is
/// coloured when standard output is a terminal.
pub fn display_license(tool_name: &str, license: LicenseType) -> (r: String)
    ensures
        exists|link: Seq<char>|
            painted(link, license_pointer()) && r@ == license_text_of(tool_name@, license, link),
{
    let r = format_license(tool_name, license, is_tty());
    proof {
        if r@ == license_text_of(tool_name@, license, license_pointer()) {
            assert(painted(license_pointer(), license_pointer()));
        }
    }
    r
}

} // verus!
