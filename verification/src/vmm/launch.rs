//! What a boot of a kernel from the command line is made of.
use crate::text;
use vstd::prelude::*;

verus! {

/// How long the event loop waits for events at a time.
pub const LOOP_TIMEOUT_MS: i32 = 1000;

/// The kernel's command line.
pub const KERNEL_CMDLINE: &'static str =
    "console=ttyS0 earlyprintk=ttyS0 reboot=t panic=-1 tsc=reliable lpj=7200000 nohpet lapic ip=dhcp";

/// The name of the network interface.
pub const IFACE_ID: &'static str = "eth0";

/// How a kernel image is packed.
#[derive(Clone, Copy, PartialEq, Eq, Structural, Debug)]
pub enum KernelFormat {
    Raw,
    Elf,
}

/// A machine to boot.
#[derive(Debug)]
pub struct LaunchPlan {
    pub kernel_path: String,
    pub kernel_format: KernelFormat,
    pub initrd_path: Option<String>,
    pub vcpu_count: u8,
    pub mem_size_mib: usize,
    pub ht_enabled: bool,
    pub cmdline: String,
    pub iface_id: String,
    pub mac: [u8; 6],
    pub features: u32,
}

/// How to call the program known as `name`.
pub open spec fn usage_text(name: Seq<char>) -> Seq<char> {
    "Usage: "@ + name + " <bzImage> [initrd]"@
}

/// An image whose path names it a `vmlinux` is an ELF file.
pub fn kernel_format(path: &str) -> (format: KernelFormat)
    ensures
        format == if text::occurs("vmlinux"@, path@) {
            KernelFormat::Elf
        } else {
            KernelFormat::Raw
        },
{
    if text::contains(path, "vmlinux") {
        KernelFormat::Elf
    } else {
        KernelFormat::Raw
    }
}

/// The machine that the arguments describe: the image, and then the initial
/// ramdisk, if any. Without an image, how to call the program.
pub fn launch(args: &Vec<String>) -> (r: Result<LaunchPlan, String>)
    requires
        args@.len() > 0,
    ensures
        match r {
            Ok(plan) => {
                &&& args@.len() >= 2
                &&& plan.kernel_path@ == args@[1]@
                &&& plan.kernel_format == if text::occurs("vmlinux"@, args@[1]@) {
                    KernelFormat::Elf
                } else {
                    KernelFormat::Raw
                }
                &&& plan.initrd_path is Some == (args@.len() >= 3)
                &&& plan.initrd_path is Some ==> plan.initrd_path->0@ == args@[2]@
                &&& plan.vcpu_count == 1
                &&& plan.mem_size_mib == 256
                &&& !plan.ht_enabled
                &&& plan.cmdline@ == KERNEL_CMDLINE@
                &&& plan.iface_id@ == IFACE_ID@
                &&& plan.mac@ == seq![0x52u8, 0x54, 0x00, 0x12, 0x34, 0x56]
                &&& plan.features == 0
            },
            Err(usage) => args@.len() < 2 && usage@ == usage_text(args@[0]@),
        },
{
    if args.len() < 2 {
        let mut usage: String = "Usage: ".to_owned();
        usage.append(args[0].as_str());
        usage.append(" <bzImage> [initrd]");
        return Err(usage);
    }
    let mac: [u8; 6] = [0x52, 0x54, 0x00, 0x12, 0x34, 0x56];
    assert(mac@ =~= seq![0x52u8, 0x54, 0x00, 0x12, 0x34, 0x56]);
    Ok(
        LaunchPlan {
            kernel_path: args[1].as_str().to_owned(),
            kernel_format: kernel_format(args[1].as_str()),
            initrd_path: if args.len() >= 3 {
                Some(args[2].as_str().to_owned())
            } else {
                None
            },
            vcpu_count: 1,
            mem_size_mib: 256,
            ht_enabled: false,
            cmdline: KERNEL_CMDLINE.to_owned(),
            iface_id: IFACE_ID.to_owned(),
            mac,
            features: 0,
        },
    )
}

/// An image is an ELF file if `vmlinux` stands anywhere in its path, and raw if
/// it does not.
pub proof fn images_are_told_by_their_path(
    path: &str,
    format: KernelFormat,
    before: Seq<char>,
    after: Seq<char>,
)
    requires
        call_ensures(kernel_format, (path,), format),
    ensures
        path@ == before + "vmlinux"@ + after ==> format is Elf,
        format is Elf ==> exists|a: Seq<char>, b: Seq<char>|
            path@ == #[trigger] ((a + "vmlinux"@) + b),
{
    let pattern = "vmlinux"@;
    if path@ == before + pattern + after {
        let i = before.len() as int;
        assert(path@.subrange(i, i + pattern.len()) =~= pattern);
        assert(text::occurs_at(pattern, path@, i));
    }
    if format is Elf {
        let i = choose|i: int| #[trigger] text::occurs_at(pattern, path@, i);
        assert(path@ =~= (path@.take(i) + pattern) + path@.skip(i + pattern.len()));
    }
}

/// The first argument is the program, the second the image and the third the
/// ramdisk; further ones are ignored. There is a machine to boot exactly if
/// there is an image, and it has one processor and 256 MiB.
pub proof fn arguments_have_their_places(args: Vec<String>, r: Result<LaunchPlan, String>)
    requires
        call_ensures(launch, (&args,), r),
        args@.len() > 0,
    ensures
        r is Ok <==> args@.len() > 1,
        r matches Ok(plan) ==> {
            &&& plan.kernel_path@ == args@[1]@
            &&& plan.initrd_path is Some <==> args@.len() > 2
            &&& plan.initrd_path matches Some(path) ==> path@ == args@[2]@
            &&& plan.vcpu_count == 1 && plan.mem_size_mib == 256 && !plan.ht_enabled
            &&& plan.mac@ == seq![0x52u8, 0x54, 0, 0x12, 0x34, 0x56] && plan.features == 0
        },
        r matches Err(usage) ==> usage@.subrange(7, 7 + args@[0]@.len() as int) == args@[0]@,
{
    if let Err(usage) = r {
        reveal_strlit("Usage: ");
        assert(usage@.subrange(7, 7 + args@[0]@.len() as int) =~= args@[0]@);
    }
}

} // verus!
