# cuda_oxide

The decisions of a Rust-to-CUDA toolchain as a Verus library: every function in
`src/` has a contract that Verus proves.

| Module | What it decides |
|--------|-----------------|
| `target` | which features and which PTX ISA exported LLVM text needs, and which `sm_XX` can lower it |
| `launch` | whether a kernel launch keeps its contract and fits the live device |
| `kernel_family` | which variant of a kernel family serves a problem |
| `export` | the target and the dialect of NVVM IR, and the declaration of external device functions |
| `module`, `verify` | what a module needs from libdevice and from the linker, and which operation in it is at fault |
| `llvm` | the operations of the LLVM dialect: building and checking them, and printing and reading names, operands and keywords around the texts of types, attributes, flags and regions |
| `lowering` | atomic operations, split into fences and relaxed instructions |
| `importer` | source locations and the evaluation of array lengths |
| `device_future` | the state machine of a future for device work |
| `options` | the settings of the backend |

`app/` is ordinary Rust around the library: it reads the environment and files,
asks the CUDA driver, registers wakers, and hands plain values back and forth.

What the library trusts without proof stands behind four declarations: pliron's
rule for identifiers (`llvm::identifier`), how pliron prints a quoted string and
how it reads one (`llvm::ops::call`), and `String::push` (`text`).
