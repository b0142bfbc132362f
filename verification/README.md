# k8s_wfx

A Double Commander file-system plugin that shows Kubernetes resources as
directories: the root lists the contexts of the kubeconfig, a context lists
the kinds of resource, and the directory of a kind lists the pods, jobs,
deployments, namespaces or nodes of the cluster.

- `src/` is the library, verified with Verus: path splitting and file-time
  conversion (`helper`), the kinds of resource and their names (`resources`),
  the listings and the choice of listing for a path (`iterators`), the
  records handed to the file manager (`consts`), and the status codes and
  root name it is answered with (`plugin`).
- `app/` holds the C interface that the file manager calls, the reading of
  the kubeconfig and the requests to the cluster (kube, tokio), and the
  settings shared between calls.
- `tests/` runs the library on concrete paths, listings and names.
