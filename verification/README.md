# sev-snp

The Linux AMD SEV-SNP guest API, with its logic verified in Verus.

- `src/` is the verified library. It holds the attestation report layout and
  the bitfields and TCB encodings inside it, the certificate table that comes
  with an extended report, key derivation requests, the request and response
  formats of both kernel transports (`/dev/sev-guest` and configfs-TSM), and
  the decisions taken on what the kernel answers: firmware and hypervisor
  status codes, the configfs generation counter and provider name, the check
  that a report answers the request that produced it, and the bounded retry
  schedule. Every function carries a contract, and the properties that span
  functions (TCB and CPUID encodings round-trip, certificate bodies lie inside
  their blob, accepted reports echo the request, retries are bounded) are
  proved as lemmas.
- `app/` makes the system calls: it opens the device and the configfs
  directories, issues the `ioctl`, sleeps between retries, executes `CPUID`,
  and gives the library's types human-readable `Display` and `Debug` forms.
- `tests/` runs the library on concrete inputs.
