use vstd::prelude::*;

verus! {

/// The descriptor text for an installed application: the fixed launcher
/// template with the display name, installed bundle path (in both `Exec`
/// and `TryExec`), icon path, description and category substituted.
pub open spec fn desktop_content(
    name: Seq<char>,
    desc: Seq<char>,
    icon: Seq<char>,
    category: Seq<char>,
    target: Seq<char>,
) -> Seq<char> {
    "\n[Desktop Entry]\nType=Application\nName="@ + name + "\nExec="@ + target + "\nIcon="@ + icon
        + "\nComment="@ + desc + "\nTerminal=false"@ + "\nCategories="@ + category + ";"@ + "\n"@
        + "\nTryExec="@ + target + "\nPrefersNonDefaultGPU=false\n        "@
}

/// The path the descriptor is written to: `<app name>.desktop` in the
/// applications directory under home.
pub open spec fn descriptor_path_of(home: Seq<char>, name: Seq<char>) -> Seq<char> {
    home + "/.local/share/applications/"@ + name + ".desktop"@
}

/// `sub` occurs contiguously somewhere in `s`.
pub open spec fn has_substring(s: Seq<char>, sub: Seq<char>) -> bool {
    exists|i: int|
        0 <= i && i + sub.len() <= s.len() && #[trigger] s.subrange(i, i + sub.len()) == sub
}

proof fn lemma_concat_has_substring(a: Seq<char>, b: Seq<char>, c: Seq<char>)
    ensures
        has_substring(a + b + c, b),
{
    let s = a + b + c;
    assert(s.subrange(a.len() as int, (a.len() + b.len()) as int) =~= b);
}

/// Renders the descriptor text.
pub fn generate_desktop_file(
    name: &str,
    desc: &str,
    icon: &str,
    category: &str,
    target: &str,
) -> (r: String)
    ensures
        r@ == desktop_content(name@, desc@, icon@, category@, target@),
{
    let r = String::from_str("\n[Desktop Entry]\nType=Application\nName=").concat(name).concat(
        "\nExec=",
    ).concat(target).concat("\nIcon=").concat(icon).concat("\nComment=").concat(desc).concat(
        "\nTerminal=false",
    ).concat("\nCategories=").concat(category).concat(";").concat("\n").concat(
        "\nTryExec=",
    ).concat(target).concat("\nPrefersNonDefaultGPU=false\n        ");
    proof {
        assert(r@ =~= desktop_content(name@, desc@, icon@, category@, target@));
    }
    r
}

/// The path the descriptor is written to, formed from the home directory
/// and the application name.
pub fn descriptor_path(home: &str, name: &str) -> (r: String)
    ensures
        r@ == descriptor_path_of(home@, name@),
{
    let r = String::from_str(home).concat("/.local/share/applications/").concat(name).concat(
        ".desktop",
    );
    proof {
        assert(r@ =~= descriptor_path_of(home@, name@));
    }
    r
}

/// The rendered descriptor carries the resolved bundle target path in both
/// its `Exec` and its `TryExec` field, and its `Categories` line ends with
/// the trailing separator.
pub proof fn lemma_descriptor_mentions_target(
    name: Seq<char>,
    desc: Seq<char>,
    icon: Seq<char>,
    category: Seq<char>,
    target: Seq<char>,
)
    ensures
        has_substring(desktop_content(name, desc, icon, category, target), "\nExec="@ + target),
        has_substring(desktop_content(name, desc, icon, category, target), "\nTryExec="@ + target),
        has_substring(
            desktop_content(name, desc, icon, category, target),
            "\nCategories="@ + category + ";"@,
        ),
{
    let c = desktop_content(name, desc, icon, category, target);
    let a1 = "\n[Desktop Entry]\nType=Application\nName="@ + name;
    let b1 = "\nExec="@ + target;
    let r1 = "\nIcon="@ + icon + "\nComment="@ + desc + "\nTerminal=false"@ + "\nCategories="@
        + category + ";"@ + "\n"@ + "\nTryExec="@ + target
        + "\nPrefersNonDefaultGPU=false\n        "@;
    assert(c =~= a1 + b1 + r1);
    lemma_concat_has_substring(a1, b1, r1);

    let a2 = a1 + b1 + "\nIcon="@ + icon + "\nComment="@ + desc + "\nTerminal=false"@;
    let b2 = "\nCategories="@ + category + ";"@;
    let r2 = "\n"@ + "\nTryExec="@ + target + "\nPrefersNonDefaultGPU=false\n        "@;
    assert(c =~= a2 + b2 + r2);
    lemma_concat_has_substring(a2, b2, r2);

    let a3 = a2 + b2 + "\n"@;
    let b3 = "\nTryExec="@ + target;
    let r3 = "\nPrefersNonDefaultGPU=false\n        "@;
    assert(c =~= a3 + b3 + r3);
    lemma_concat_has_substring(a3, b3, r3);
}

/// A descriptor rendered with an empty icon value — as after a failed or
/// skipped icon installation — carries an `Icon` field with nothing after
/// the equals sign.
pub proof fn lemma_empty_icon_field(
    name: Seq<char>,
    desc: Seq<char>,
    category: Seq<char>,
    target: Seq<char>,
)
    ensures
        has_substring(
            desktop_content(name, desc, Seq::<char>::empty(), category, target),
            "\nIcon=\nComment="@,
        ),
{
    let c = desktop_content(name, desc, Seq::<char>::empty(), category, target);
    reveal_strlit("\nIcon=");
    reveal_strlit("\nComment=");
    reveal_strlit("\nIcon=\nComment=");
    assert("\nIcon="@ + Seq::<char>::empty() + "\nComment="@ =~= "\nIcon=\nComment="@);
    let a = "\n[Desktop Entry]\nType=Application\nName="@ + name + "\nExec="@ + target;
    let b = "\nIcon=\nComment="@;
    let r = desc + "\nTerminal=false"@ + "\nCategories="@ + category + ";"@ + "\n"@ + "\nTryExec="@
        + target + "\nPrefersNonDefaultGPU=false\n        "@;
    assert(c =~= a + b + r);
    lemma_concat_has_substring(a, b, r);
}

} // verus!
